//! The per-app native build pipeline, Configure, Compile, Install, Rename,
//! as a state machine: each state names the next external action, each
//! reported event moves it on or stops it with an attributed error.
use vstd::prelude::*;
use crate::descriptor::{App, BuildProfile, path_join, join_path};
use crate::outcome::{BuildError, Step};

verus! {

/// One external process to run.
#[derive(Debug)]
pub struct Invocation {
    pub program: String,
    pub args: Vec<String>,
    /// Working directory.
    pub cwd: String,
}

/// What the driver of a pipeline is to do next.
#[derive(Debug)]
pub enum Action {
    /// Create a directory and its parents; an existing one is fine.
    CreateDir(String),
    /// Delete a directory tree; a missing one is fine.
    RemoveDir(String),
    Run(Invocation),
    Rename { from: String, to: String },
    /// Nothing left to do.
    Finish,
}

/// What came of an action, as the driver saw it.
#[derive(Debug)]
pub enum StepEvent {
    Done,
    ProcessFailed { exit_code: Option<i32>, output: String },
    /// The program to run could not be found.
    ToolMissing(String),
    /// The path acted on does not exist.
    NotFound(String),
    /// A file system operation failed.
    IoFailed(String),
}

/// The error that an event stands for, attributed to a step; none for `Done`.
pub open spec fn error_for(step: Step, ev: StepEvent) -> Option<BuildError> {
    match ev {
        StepEvent::Done => None,
        StepEvent::ProcessFailed { exit_code, output } => Some(
            BuildError::ProcessFailed { step, exit_code, output },
        ),
        StepEvent::ToolMissing(t) => Some(BuildError::ToolNotFound(t)),
        StepEvent::NotFound(d) => Some(BuildError::Filesystem { step, detail: d }),
        StepEvent::IoFailed(d) => Some(BuildError::Filesystem { step, detail: d }),
    }
}

/// The result of removing an app's output tree: a tree that is already gone
/// counts as cleaned.
pub open spec fn clean_result_of(ev: StepEvent) -> Result<(), BuildError> {
    match ev {
        StepEvent::NotFound(_) => Ok(()),
        _ => result_for(Step::Clean, ev),
    }
}

/// Cleaning twice in a row succeeds both times: the first removal finds the
/// tree and removes it, the second finds it gone.
pub proof fn lemma_clean_idempotent(missing: String)
    ensures
        clean_result_of(StepEvent::Done) is Ok,
        clean_result_of(StepEvent::NotFound(missing)) is Ok,
{
}

pub open spec fn result_for(step: Step, ev: StepEvent) -> Result<(), BuildError> {
    match error_for(step, ev) {
        None => Ok(()),
        Some(e) => Err(e),
    }
}

/// Turns what the driver saw into the step's result, attributed to `step`.
pub fn attribute(step: Step, ev: StepEvent) -> (r: Result<(), BuildError>)
    ensures
        r == result_for(step, ev),
{
    match ev {
        StepEvent::Done => Ok(()),
        StepEvent::ProcessFailed { exit_code, output } => Err(
            BuildError::ProcessFailed { step, exit_code, output },
        ),
        StepEvent::ToolMissing(t) => Err(BuildError::ToolNotFound(t)),
        StepEvent::NotFound(d) => Err(BuildError::Filesystem { step, detail: d }),
        StepEvent::IoFailed(d) => Err(BuildError::Filesystem { step, detail: d }),
    }
}

/// Where one app's pipeline stands.
#[derive(Clone, Copy, Debug, PartialEq, Eq, Structural)]
pub enum Stage {
    /// Creating the build directory.
    Prepare,
    Configure,
    Compile,
    Install,
    Rename,
    Done,
    Failed,
}

pub open spec fn successor(s: Stage) -> Stage {
    match s {
        Stage::Prepare => Stage::Configure,
        Stage::Configure => Stage::Compile,
        Stage::Compile => Stage::Install,
        Stage::Install => Stage::Rename,
        Stage::Rename => Stage::Done,
        _ => s,
    }
}

/// The step an error in a stage is attributed to.
pub open spec fn step_of(s: Stage) -> Step {
    match s {
        Stage::Prepare => Step::Prepare,
        Stage::Compile => Step::Compile,
        Stage::Install => Step::Install,
        Stage::Rename => Step::Rename,
        _ => Step::Configure,
    }
}

pub open spec fn build_type_name(p: BuildProfile) -> Seq<char> {
    match p {
        BuildProfile::Release => "RELEASE"@,
        BuildProfile::Debug => "DEBUG"@,
    }
}

pub open spec fn configure_args(app: App, p: BuildProfile) -> Seq<Seq<char>> {
    seq![
        "-DCMAKE_BUILD_TYPE="@ + build_type_name(p),
        "-DCMAKE_INSTALL_PREFIX="@ + app.output_root@,
        "-DCMAKE_INSTALL_BINDIR=bin"@,
        "-DREACTOR_CPP_VALIDATE=ON"@,
        "-DREACTOR_CPP_TRACE=OFF"@,
        "-DREACTOR_CPP_LOG_LEVEL=3"@,
        "-DLF_SRC_PKG_PATH="@ + app.root_path@,
        app.src_gen_dir_spec(),
        "-B"@,
        app.build_dir_spec(),
    ]
}

pub open spec fn compile_args(app: App) -> Seq<Seq<char>> {
    seq!["--build"@, "."@, "--target"@, app.target_name_spec()]
}

pub open spec fn install_args() -> Seq<Seq<char>> {
    seq!["--install"@, "."@]
}

pub open spec fn strings_view(v: Seq<String>) -> Seq<Seq<char>> {
    v.map_values(|s: String| s@)
}

/// A `cmake` run in the app's build directory with the given arguments.
pub open spec fn is_cmake_run(a: Action, app: App, args: Seq<Seq<char>>) -> bool {
    a matches Action::Run(inv) && inv.program@ == "cmake"@ && inv.cwd@ == app.build_dir_spec()
        && strings_view(inv.args@) == args
}

/// The action that the pipeline of `app` takes in a stage.
pub open spec fn action_is(a: Action, app: App, p: BuildProfile, s: Stage) -> bool {
    match s {
        Stage::Prepare => a matches Action::CreateDir(d) && d@ == app.build_dir_spec(),
        Stage::Configure => is_cmake_run(a, app, configure_args(app, p)),
        Stage::Compile => is_cmake_run(a, app, compile_args(app)),
        Stage::Install => is_cmake_run(a, app, install_args()),
        Stage::Rename => a matches Action::Rename { from, to } && from@ == path_join(
            app.bin_dir_spec(),
            app.target_name_spec(),
        ) && to@ == app.executable_path_spec(),
        _ => a is Finish,
    }
}

fn cmake_in(app: &App, args: Vec<String>) -> (r: Action)
    ensures
        is_cmake_run(r, *app, strings_view(args@)),
{
    Action::Run(Invocation { program: String::from_str("cmake"), args, cwd: app.build_dir() })
}

/// The CMake backend.
#[derive(Clone, Copy, Debug)]
pub struct Cmake;

impl Cmake {
    /// The action of `app`'s pipeline in stage `s`.
    pub fn action(&self, app: &App, profile: BuildProfile, s: Stage) -> (r: Action)
        ensures
            action_is(r, *app, profile, s),
    {
        match s {
            Stage::Prepare => Action::CreateDir(app.build_dir()),
            Stage::Configure => {
                let mut args: Vec<String> = Vec::new();
                let kind = match profile {
                    BuildProfile::Release => "RELEASE",
                    BuildProfile::Debug => "DEBUG",
                };
                args.push(String::from_str("-DCMAKE_BUILD_TYPE=").concat(kind));
                args.push(
                    String::from_str("-DCMAKE_INSTALL_PREFIX=").concat(app.output_root.as_str()),
                );
                args.push(String::from_str("-DCMAKE_INSTALL_BINDIR=bin"));
                args.push(String::from_str("-DREACTOR_CPP_VALIDATE=ON"));
                args.push(String::from_str("-DREACTOR_CPP_TRACE=OFF"));
                args.push(String::from_str("-DREACTOR_CPP_LOG_LEVEL=3"));
                args.push(String::from_str("-DLF_SRC_PKG_PATH=").concat(app.root_path.as_str()));
                args.push(app.src_gen_dir());
                args.push(String::from_str("-B"));
                args.push(app.build_dir());
                assert(strings_view(args@) =~= configure_args(*app, profile));
                cmake_in(app, args)
            },
            Stage::Compile => {
                let mut args: Vec<String> = Vec::new();
                args.push(String::from_str("--build"));
                args.push(String::from_str("."));
                args.push(String::from_str("--target"));
                args.push(app.target_name());
                assert(strings_view(args@) =~= compile_args(*app));
                cmake_in(app, args)
            },
            Stage::Install => {
                let mut args: Vec<String> = Vec::new();
                args.push(String::from_str("--install"));
                args.push(String::from_str("."));
                assert(strings_view(args@) =~= install_args());
                cmake_in(app, args)
            },
            Stage::Rename => {
                let bin = app.bin_dir();
                let target = app.target_name();
                Action::Rename {
                    from: join_path(bin.as_str(), target.as_str()),
                    to: app.executable_path(),
                }
            },
            _ => Action::Finish,
        }
    }

    /// The action that cleans `app`: its whole output tree goes.
    pub fn clean_action(&self, app: &App) -> (r: Action)
        ensures
            r matches Action::RemoveDir(d) && d@ == app.output_root@,
    {
        Action::RemoveDir(app.output_root.clone())
    }

    /// The result of cleaning, from what the removal of the output tree met.
    pub fn clean_result(&self, ev: StepEvent) -> (r: Result<(), BuildError>)
        ensures
            r == clean_result_of(ev),
    {
        match ev {
            StepEvent::NotFound(_) => Ok(()),
            _ => attribute(Step::Clean, ev),
        }
    }
}

/// One app's pipeline.
#[derive(Clone, Copy, Debug)]
pub struct Pipeline {
    pub stage: Stage,
}

impl Pipeline {
    /// A pipeline that has not started; it is entered once the app's code
    /// generation succeeded.
    pub fn new() -> (r: Pipeline)
        ensures
            r.stage == Stage::Prepare,
    {
        Pipeline { stage: Stage::Prepare }
    }

    pub open spec fn is_over(&self) -> bool {
        self.stage == Stage::Done || self.stage == Stage::Failed
    }

    pub fn over(&self) -> (r: bool)
        ensures
            r == self.is_over(),
    {
        self.stage == Stage::Done || self.stage == Stage::Failed
    }

    /// Moves on after the current stage's action: to the next stage when it
    /// succeeded, else to `Failed`, returning the error attributed to the
    /// stage's step.
    pub fn advance(&mut self, ev: StepEvent) -> (r: Result<(), BuildError>)
        requires
            !old(self).is_over(),
        ensures
            r == result_for(step_of(old(self).stage), ev),
            final(self).stage == (if r is Ok {
                successor(old(self).stage)
            } else {
                Stage::Failed
            }),
    {
        let step = match self.stage {
            Stage::Prepare => Step::Prepare,
            Stage::Compile => Step::Compile,
            Stage::Install => Step::Install,
            Stage::Rename => Step::Rename,
            _ => Step::Configure,
        };
        let r = attribute(step, ev);
        if r.is_ok() {
            self.stage = match self.stage {
                Stage::Prepare => Stage::Configure,
                Stage::Configure => Stage::Compile,
                Stage::Compile => Stage::Install,
                Stage::Install => Stage::Rename,
                _ => Stage::Done,
            };
        } else {
            self.stage = Stage::Failed;
        }
        r
    }
}

} // verus!
