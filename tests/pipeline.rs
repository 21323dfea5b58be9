use lingo::descriptor::{App, BuildProfile};
use lingo::outcome::{BuildError, Step};
use lingo::pipeline::{attribute, Action, Cmake, Pipeline, Stage, StepEvent};

fn foo() -> App {
    App::new(
        "foo".to_string(),
        "/p".to_string(),
        "/p/out".to_string(),
        "src/foo_target.lf".to_string(),
    )
}

fn run_args(a: Action) -> (String, Vec<String>, String) {
    match a {
        Action::Run(inv) => (inv.program, inv.args, inv.cwd),
        other => panic!("not a run: {:?}", other),
    }
}

#[test]
fn configure_arguments() {
    let (prog, args, cwd) = run_args(Cmake.action(&foo(), BuildProfile::Release, Stage::Configure));
    assert_eq!(prog, "cmake");
    assert_eq!(cwd, "/p/out/build");
    assert_eq!(
        args,
        vec![
            "-DCMAKE_BUILD_TYPE=RELEASE",
            "-DCMAKE_INSTALL_PREFIX=/p/out",
            "-DCMAKE_INSTALL_BINDIR=bin",
            "-DREACTOR_CPP_VALIDATE=ON",
            "-DREACTOR_CPP_TRACE=OFF",
            "-DREACTOR_CPP_LOG_LEVEL=3",
            "-DLF_SRC_PKG_PATH=/p",
            "/p/src-gen",
            "-B",
            "/p/out/build",
        ]
    );
    let (_, args, _) = run_args(Cmake.action(&foo(), BuildProfile::Debug, Stage::Configure));
    assert_eq!(args[0], "-DCMAKE_BUILD_TYPE=DEBUG");
}

#[test]
fn compile_and_install_arguments() {
    let (_, args, _) = run_args(Cmake.action(&foo(), BuildProfile::Debug, Stage::Compile));
    assert_eq!(args, vec!["--build", ".", "--target", "foo_target"]);
    let (_, args, _) = run_args(Cmake.action(&foo(), BuildProfile::Debug, Stage::Install));
    assert_eq!(args, vec!["--install", "."]);
}

#[test]
fn rename_to_app_name() {
    match Cmake.action(&foo(), BuildProfile::Debug, Stage::Rename) {
        Action::Rename { from, to } => {
            assert_eq!(from, "/p/out/bin/foo_target");
            assert_eq!(to, "/p/out/bin/foo");
        }
        other => panic!("not a rename: {:?}", other),
    }
    match Cmake.action(&foo(), BuildProfile::Debug, Stage::Prepare) {
        Action::CreateDir(d) => assert_eq!(d, "/p/out/build"),
        other => panic!("not a mkdir: {:?}", other),
    }
    assert!(matches!(Cmake.action(&foo(), BuildProfile::Debug, Stage::Done), Action::Finish));
}

#[test]
fn clean_removes_output_root() {
    match Cmake.clean_action(&foo()) {
        Action::RemoveDir(d) => assert_eq!(d, "/p/out"),
        other => panic!("not a removal: {:?}", other),
    }
}

#[test]
fn pipeline_runs_in_order() {
    let mut p = Pipeline::new();
    let mut seen = vec![p.stage];
    while !p.over() {
        assert!(p.advance(StepEvent::Done).is_ok());
        seen.push(p.stage);
    }
    assert_eq!(
        seen,
        vec![Stage::Prepare, Stage::Configure, Stage::Compile, Stage::Install, Stage::Rename, Stage::Done]
    );
}

#[test]
fn failure_names_the_step() {
    let mut p = Pipeline::new();
    p.advance(StepEvent::Done).unwrap();
    p.advance(StepEvent::Done).unwrap();
    let e = p
        .advance(StepEvent::ProcessFailed { exit_code: Some(2), output: "boom".to_string() })
        .unwrap_err();
    match e {
        BuildError::ProcessFailed { step, exit_code, output } => {
            assert_eq!(step, Step::Compile);
            assert_eq!(exit_code, Some(2));
            assert_eq!(output, "boom");
        }
        other => panic!("{:?}", other),
    }
    assert_eq!(p.stage, Stage::Failed);
    assert!(p.over());
}

#[test]
fn attribute_events() {
    assert!(attribute(Step::Clean, StepEvent::Done).is_ok());
    assert!(matches!(
        attribute(Step::Clean, StepEvent::IoFailed("denied".to_string())),
        Err(BuildError::Filesystem { step: Step::Clean, .. })
    ));
    assert!(matches!(
        attribute(Step::Codegen, StepEvent::ToolMissing("lfc".to_string())),
        Err(BuildError::ToolNotFound(_))
    ));
}

#[test]
fn clean_twice_succeeds() {
    assert!(Cmake.clean_result(StepEvent::Done).is_ok());
    assert!(Cmake.clean_result(StepEvent::NotFound("/p/out".to_string())).is_ok());
    assert!(matches!(
        Cmake.clean_result(StepEvent::IoFailed("denied".to_string())),
        Err(BuildError::Filesystem { step: Step::Clean, .. })
    ));
}

#[test]
fn missing_file_in_rename_is_an_error() {
    assert!(matches!(
        attribute(Step::Rename, StepEvent::NotFound("bin/x".to_string())),
        Err(BuildError::Filesystem { step: Step::Rename, .. })
    ));
}

#[test]
fn build_dir_failure_names_prepare() {
    let mut p = Pipeline::new();
    match p.advance(StepEvent::IoFailed("denied".to_string())) {
        Err(BuildError::Filesystem { step, .. }) => assert_eq!(step, Step::Prepare),
        other => panic!("{:?}", other),
    }
}
