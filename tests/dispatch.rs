use lingo::descriptor::{App, BuildProfile};
use lingo::dispatch::{
    collect, fresh_statuses, validate, Backend, BuildCommandOptions, CommandError, CommandSpec, Phase,
};
use lingo::outcome::AppStatus;
use lingo::pipeline::{Action, Cmake, Stage};

fn apps(names: &[&str]) -> Vec<App> {
    names
        .iter()
        .map(|n| App::new(n.to_string(), format!("/r/{}", n), format!("/r/{}/out", n), "Main.lf".to_string()))
        .collect()
}

fn names(v: &[&str]) -> Vec<String> {
    v.iter().map(|s| s.to_string()).collect()
}

fn opts(compile: bool, threads: usize, keep_going: bool) -> BuildCommandOptions {
    BuildCommandOptions {
        profile: BuildProfile::Debug,
        compile_target_code: compile,
        lfc_exec_path: "/bin/lfc".to_string(),
        max_threads: threads,
        keep_going,
    }
}

#[test]
fn unknown_name_fails_whole_command() {
    match validate(&apps(&["a", "b"]), &names(&["a", "c"])) {
        Err(CommandError::UnknownAppNames(u)) => assert_eq!(u, vec!["c".to_string()]),
        other => panic!("{:?}", other),
    }
}

#[test]
fn every_unknown_name_is_listed() {
    match validate(&apps(&["a"]), &names(&["x", "a", "y"])) {
        Err(CommandError::UnknownAppNames(u)) => assert_eq!(u, names(&["x", "y"])),
        other => panic!("{:?}", other),
    }
}

#[test]
fn empty_request_selects_all() {
    assert_eq!(validate(&apps(&["a", "b", "c"]), &vec![]).unwrap(), vec![0, 1, 2]);
}

#[test]
fn subset_in_manifest_order() {
    assert_eq!(validate(&apps(&["a", "b", "c"]), &names(&["c", "a"])).unwrap(), vec![0, 2]);
}

#[test]
fn build_phases() {
    let b = CommandSpec::Build(opts(true, 2, false));
    assert_eq!(b.first_phase(), Phase::Codegen);
    assert_eq!(b.phase_after(Phase::Codegen), Phase::Compile);
    assert_eq!(b.phase_after(Phase::Compile), Phase::Done);
    let g = CommandSpec::Build(opts(false, 2, false));
    assert_eq!(g.phase_after(Phase::Codegen), Phase::Done);
    let r = CommandSpec::Run(opts(true, 2, false));
    assert_eq!(r.phase_after(Phase::Compile), Phase::Run);
    assert_eq!(r.phase_after(Phase::Run), Phase::Done);
    let c = CommandSpec::Clean;
    assert_eq!(c.first_phase(), Phase::Clean);
    assert_eq!(c.phase_after(Phase::Clean), Phase::Done);
}

#[test]
fn phase_schedulers() {
    let b = CommandSpec::Build(opts(true, 3, false));
    let s = b.start_phase(Phase::Codegen, fresh_statuses(5));
    assert_eq!(s.max_threads, 3);
    assert!(!s.keep_going);
    let s = b.start_phase(Phase::Compile, fresh_statuses(5));
    assert_eq!(s.max_threads, 1);
    let r = CommandSpec::Run(opts(true, 3, false));
    let s = r.start_phase(Phase::Run, vec![AppStatus::Success, AppStatus::NotAttempted]);
    assert!(s.keep_going);
    assert!(!s.stopped);
    let s = CommandSpec::Clean.start_phase(Phase::Clean, fresh_statuses(2));
    assert!(s.keep_going);
}

#[test]
fn collect_pairs_names() {
    let a = apps(&["a", "b", "c"]);
    let r = collect(&a, &vec![0, 2], vec![AppStatus::Success, AppStatus::NotAttempted]);
    assert_eq!(r.outcomes.len(), 2);
    assert_eq!(r.outcomes[0].app, "a");
    assert_eq!(r.outcomes[1].app, "c");
    assert!(matches!(r.outcomes[1].status, AppStatus::NotAttempted));
}

#[test]
fn backend_delegates() {
    let a = apps(&["a"]);
    match Backend::Cmake(Cmake).action(&a[0], BuildProfile::Debug, Stage::Install) {
        Action::Run(inv) => assert_eq!(inv.args, vec!["--install", "."]),
        other => panic!("{:?}", other),
    }
}
