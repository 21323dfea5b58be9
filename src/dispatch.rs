//! The command layer: what a caller asks for, the check of the requested app
//! names against the manifest, and the choice of backend.
use vstd::prelude::*;
use crate::descriptor::{App, BuildProfile};
use crate::outcome::{AppOutcome, AppStatus, BatchBuildResults, OverallStatus, all_succeeded, overall_of};
use crate::outcome::BuildError;
use crate::pipeline::{Action, Cmake, Stage, StepEvent, strings_view, action_is, clean_result_of};
use crate::scheduler::{Scheduler, has_failure, slot_after};

verus! {

/// Options of a build.
#[derive(Debug)]
pub struct BuildCommandOptions {
    pub profile: BuildProfile,
    /// When false, stop after code generation.
    pub compile_target_code: bool,
    /// Resolved path of the code generator.
    pub lfc_exec_path: String,
    /// How many code generators may run at once; at least one.
    pub max_threads: usize,
    /// Whether a failing app leaves the others running.
    pub keep_going: bool,
}

/// The unit of work requested by a caller.
#[derive(Debug)]
pub enum CommandSpec {
    Build(BuildCommandOptions),
    Clean,
    /// Build, then run each app that was built.
    Run(BuildCommandOptions),
}

/// Errors that stop a whole command before any work starts.
#[derive(Debug)]
pub enum CommandError {
    /// Every requested name that the manifest does not hold, in request order.
    UnknownAppNames(Vec<String>),
    /// No manifest was found.
    MissingManifest,
    /// An external tool could not be located.
    ToolNotFound(String),
}

/// The native build systems the orchestration can drive.
#[derive(Clone, Copy, Debug)]
pub enum Backend {
    Cmake(Cmake),
}

impl Backend {
    /// The action of `app`'s build pipeline in stage `s`, for this backend.
    pub fn action(&self, app: &App, profile: BuildProfile, s: Stage) -> (r: Action)
        ensures
            match self {
                Backend::Cmake(_) => action_is(r, *app, profile, s),
            },
    {
        match self {
            Backend::Cmake(c) => c.action(app, profile, s),
        }
    }

    /// The action that cleans `app`: its output tree is removed.
    pub fn clean_action(&self, app: &App) -> (r: Action)
        ensures
            r matches Action::RemoveDir(d) && d@ == app.output_root@,
    {
        match self {
            Backend::Cmake(c) => c.clean_action(app),
        }
    }

    /// The result of cleaning one app, from what the removal met.
    pub fn clean_result(&self, ev: StepEvent) -> (r: Result<(), BuildError>)
        ensures
            r == clean_result_of(ev),
    {
        match self {
            Backend::Cmake(c) => c.clean_result(ev),
        }
    }
}

pub open spec fn names_of(apps: Seq<App>) -> Seq<Seq<char>> {
    apps.map_values(|a: App| a.name@)
}

/// The requested names that are not among `names`, in request order.
pub open spec fn unknown_names(req: Seq<Seq<char>>, names: Seq<Seq<char>>) -> Seq<Seq<char>>
    decreases req.len(),
{
    if req.len() == 0 {
        Seq::empty()
    } else {
        let rest = unknown_names(req.drop_last(), names);
        if names.contains(req.last()) {
            rest
        } else {
            rest.push(req.last())
        }
    }
}

/// An empty request selects every app.
pub open spec fn is_selected(name: Seq<char>, req: Seq<Seq<char>>) -> bool {
    req.len() == 0 || req.contains(name)
}

fn has_app_named(apps: &Vec<App>, name: &String) -> (r: bool)
    ensures
        r == names_of(apps@).contains(name@),
{
    let mut i: usize = 0;
    while i < apps.len()
        invariant
            i <= apps@.len(),
            forall|k: int| 0 <= k < i ==> apps@[k].name@ != name@,
        decreases apps@.len() - i,
    {
        if apps[i].name == *name {
            assert(names_of(apps@)[i as int] == name@);
            return true;
        }
        i = i + 1;
    }
    assert forall|k: int| 0 <= k < names_of(apps@).len() implies names_of(apps@)[k] != name@ by {
        assert(names_of(apps@)[k] == apps@[k].name@);
    }
    false
}

fn has_name(v: &Vec<String>, name: &String) -> (r: bool)
    ensures
        r == strings_view(v@).contains(name@),
{
    let mut i: usize = 0;
    while i < v.len()
        invariant
            i <= v@.len(),
            forall|k: int| 0 <= k < i ==> v@[k]@ != name@,
        decreases v@.len() - i,
    {
        if v[i] == *name {
            assert(strings_view(v@)[i as int] == name@);
            return true;
        }
        i = i + 1;
    }
    assert forall|k: int| 0 <= k < strings_view(v@).len() implies strings_view(v@)[k]
        != name@ by {
        assert(strings_view(v@)[k] == v@[k]@);
    }
    false
}

/// Checks the requested app names against the manifest's apps. Fails with
/// every unknown name when there is one; else returns, in manifest order, the
/// indices of the selected apps (all of them for an empty request).
pub fn validate(apps: &Vec<App>, requested: &Vec<String>) -> (r: Result<Vec<usize>, CommandError>)
    ensures
        r is Err <==> unknown_names(strings_view(requested@), names_of(apps@)).len() > 0,
        match r {
            Err(CommandError::UnknownAppNames(u)) => strings_view(u@) == unknown_names(
                strings_view(requested@),
                names_of(apps@),
            ),
            Err(_) => false,
            Ok(ix) => {
                &&& forall|a: int, b: int| 0 <= a < b < ix@.len() ==> ix@[a] < ix@[b]
                &&& forall|a: int| 0 <= a < ix@.len() ==> ix@[a] < apps@.len()
                &&& forall|j: int|
                    0 <= j < apps@.len() ==> (ix@.contains(j as usize) <==> is_selected(
                        apps@[j].name@,
                        strings_view(requested@),
                    ))
            },
        },
{
    let ghost req = strings_view(requested@);
    let ghost names = names_of(apps@);
    let mut unknown: Vec<String> = Vec::new();
    let mut i: usize = 0;
    while i < requested.len()
        invariant
            i <= requested@.len(),
            req == strings_view(requested@),
            names == names_of(apps@),
            strings_view(unknown@) == unknown_names(req.take(i as int), names),
        decreases requested@.len() - i,
    {
        assert(req.take(i + 1).drop_last() =~= req.take(i as int));
        assert(req.take(i + 1).last() == requested@[i as int]@);
        let known = has_app_named(apps, &requested[i]);
        if !known {
            let ghost before = unknown@;
            unknown.push(requested[i].clone());
            assert(strings_view(unknown@) =~= strings_view(before).push(requested@[i as int]@));
        }
        i = i + 1;
    }
    assert(req.take(i as int) =~= req);
    if unknown.len() > 0 {
        return Err(CommandError::UnknownAppNames(unknown));
    }
    let all = requested.len() == 0;
    let mut ix: Vec<usize> = Vec::new();
    let mut j: usize = 0;
    while j < apps.len()
        invariant
            j <= apps@.len(),
            req == strings_view(requested@),
            all == (requested@.len() == 0),
            forall|a: int, b: int| 0 <= a < b < ix@.len() ==> ix@[a] < ix@[b],
            forall|a: int| 0 <= a < ix@.len() ==> ix@[a] < j,
            forall|k: int|
                0 <= k < j ==> (ix@.contains(k as usize) <==> is_selected(apps@[k].name@, req)),
        decreases apps@.len() - j,
    {
        let pick = all || has_name(requested, &apps[j].name);
        let ghost before = ix@;
        if pick {
            ix.push(j);
            assert forall|k: int| 0 <= k < j implies (#[trigger] ix@.contains(k as usize) <==> before.contains(
                k as usize,
            )) by {
                if ix@.contains(k as usize) {
                    let w = choose|w: int| 0 <= w < ix@.len() && ix@[w] == k as usize;
                    assert(w < before.len());
                    assert(before[w] == k as usize);
                }
                if before.contains(k as usize) {
                    let w = choose|w: int| 0 <= w < before.len() && before[w] == k as usize;
                    assert(ix@[w] == k as usize);
                }
            }
            assert(ix@[before.len() as int] == j);
        } else {
            assert forall|a: int| 0 <= a < ix@.len() implies ix@[a] != j by {}
        }
        j = j + 1;
    }
    Ok(ix)
}

/// A stage of a batch command; each runs over every selected app.
#[derive(Clone, Copy, Debug, PartialEq, Eq, Structural)]
pub enum Phase {
    Codegen,
    /// The native build pipeline of each app.
    Compile,
    /// Running each built executable.
    Run,
    Clean,
    Done,
}

pub open spec fn first_phase_of(c: CommandSpec) -> Phase {
    match c {
        CommandSpec::Clean => Phase::Clean,
        _ => Phase::Codegen,
    }
}

/// Code generation always comes first and alone; compilation follows only when
/// asked for; a run comes last.
pub open spec fn phase_after_of(c: CommandSpec, p: Phase) -> Phase {
    match c {
        CommandSpec::Clean => Phase::Done,
        CommandSpec::Build(o) => if p == Phase::Codegen && o.compile_target_code {
            Phase::Compile
        } else {
            Phase::Done
        },
        CommandSpec::Run(o) => match p {
            Phase::Codegen => if o.compile_target_code {
                Phase::Compile
            } else {
                Phase::Run
            },
            Phase::Compile => Phase::Run,
            _ => Phase::Done,
        },
    }
}

/// How many workers a phase has: code generation gets the requested bound,
/// the other phases take one app at a time.
pub open spec fn phase_threads(c: CommandSpec, p: Phase) -> usize {
    match c {
        CommandSpec::Build(o) | CommandSpec::Run(o) => if p == Phase::Codegen {
            o.max_threads
        } else {
            1
        },
        CommandSpec::Clean => 1,
    }
}

/// Code generation and compilation follow the requested policy. Running goes
/// over every app that was built, whatever another's run gave; it starts only
/// apps whose earlier phases succeeded, and an app not attempted earlier stays
/// so. Cleaning goes over every app.
pub open spec fn phase_keep_going(c: CommandSpec, p: Phase) -> bool {
    match c {
        CommandSpec::Build(o) | CommandSpec::Run(o) => p == Phase::Run || o.keep_going,
        CommandSpec::Clean => true,
    }
}

impl CommandSpec {
    pub open spec fn valid(&self) -> bool {
        match self {
            CommandSpec::Build(o) | CommandSpec::Run(o) => o.max_threads >= 1,
            CommandSpec::Clean => true,
        }
    }

    pub fn first_phase(&self) -> (r: Phase)
        ensures
            r == first_phase_of(*self),
    {
        match self {
            CommandSpec::Clean => Phase::Clean,
            _ => Phase::Codegen,
        }
    }

    pub fn phase_after(&self, p: Phase) -> (r: Phase)
        ensures
            r == phase_after_of(*self, p),
    {
        match self {
            CommandSpec::Clean => Phase::Done,
            CommandSpec::Build(o) => if p == Phase::Codegen && o.compile_target_code {
                Phase::Compile
            } else {
                Phase::Done
            },
            CommandSpec::Run(o) => match p {
                Phase::Codegen => if o.compile_target_code {
                    Phase::Compile
                } else {
                    Phase::Run
                },
                Phase::Compile => Phase::Run,
                _ => Phase::Done,
            },
        }
    }

    /// The scheduler of phase `p`, given each app's status after the phases
    /// before it: only apps that succeeded so far take part.
    pub fn start_phase(&self, p: Phase, prior: Vec<AppStatus>) -> (r: Scheduler)
        requires
            self.valid(),
        ensures
            r.wf(),
            r.slots@.len() == prior@.len(),
            forall|j: int| 0 <= j < prior@.len() ==> r.slots@[j] == slot_after(prior@[j]),
            r.running == 0,
            r.max_threads == phase_threads(*self, p),
            r.keep_going == phase_keep_going(*self, p),
            r.stopped == (!r.keep_going && has_failure(r.slots@)),
    {
        let (threads, keep_going) = match self {
            CommandSpec::Build(o) | CommandSpec::Run(o) => (
                if p == Phase::Codegen {
                    o.max_threads
                } else {
                    1
                },
                p == Phase::Run || o.keep_going,
            ),
            CommandSpec::Clean => (1, true),
        };
        Scheduler::resume(prior, threads, keep_going)
    }
}

/// The status every app starts a command with.
pub fn fresh_statuses(n: usize) -> (r: Vec<AppStatus>)
    ensures
        r@.len() == n,
        forall|j: int| 0 <= j < n ==> r@[j] is Success,
{
    let mut r: Vec<AppStatus> = Vec::new();
    let mut i: usize = 0;
    while i < n
        invariant
            i <= n,
            r@.len() == i,
            forall|j: int| 0 <= j < i ==> r@[j] is Success,
        decreases n - i,
    {
        r.push(AppStatus::Success);
        i = i + 1;
    }
    r
}

/// The batch report: the selected apps, in order, with their final statuses.
pub fn collect(apps: &Vec<App>, selected: &Vec<usize>, statuses: Vec<AppStatus>) -> (r:
    BatchBuildResults)
    requires
        statuses@.len() == selected@.len(),
        forall|k: int| 0 <= k < selected@.len() ==> selected@[k] < apps@.len(),
    ensures
        r.outcomes@.len() == statuses@.len(),
        forall|k: int|
            0 <= k < statuses@.len() ==> (#[trigger] r.outcomes@[k]).app@ == apps@[selected@[k] as int].name@ && r.outcomes@[k].status == statuses@[k],
{
    let ghost orig = statuses@;
    let mut rest = statuses;
    let mut res = BatchBuildResults::new();
    let mut k: usize = 0;
    while rest.len() > 0
        invariant
            k == res.outcomes@.len(),
            k + rest@.len() == orig.len(),
            orig.len() == selected@.len(),
            forall|q: int| 0 <= q < selected@.len() ==> selected@[q] < apps@.len(),
            rest@ == orig.subrange(k as int, orig.len() as int),
            forall|q: int|
                0 <= q < k ==> (#[trigger] res.outcomes@[q]).app@ == apps@[selected@[q] as int].name@ && res.outcomes@[q].status == orig[q],
        decreases rest@.len(),
    {
        let st = rest.remove(0);
        let name = apps[selected[k]].name.clone();
        res.record(name, st);
        assert(k < selected.len());
        k = k + 1;
        assert(rest@ =~= orig.subrange(k as int, orig.len() as int));
    }
    res
}

/// A clean command runs one phase over every app, removal by removal,
/// without generating or compiling anything, and each app's clean succeeds
/// both when its output tree is removed and when it is already gone: cleaning
/// twice in a row succeeds both times.
pub proof fn lemma_clean_command(c: CommandSpec, missing: String)
    requires
        c is Clean,
    ensures
        first_phase_of(c) == Phase::Clean,
        phase_after_of(c, Phase::Clean) == Phase::Done,
        phase_keep_going(c, Phase::Clean),
        clean_result_of(StepEvent::Done) is Ok,
        clean_result_of(StepEvent::NotFound(missing)) is Ok,
{
}

/// When every app succeeds in every phase, the batch report has one success
/// per selected app, and the batch as a whole is a success.
pub proof fn lemma_all_success_batch(statuses: Seq<AppStatus>, r: BatchBuildResults)
    requires
        forall|k: int| 0 <= k < statuses.len() ==> (#[trigger] statuses[k]) is Success,
        r.outcomes@.len() == statuses.len(),
        forall|k: int| 0 <= k < statuses.len() ==> (#[trigger] r.outcomes@[k]).status == statuses[k],
    ensures
        all_succeeded(r.outcomes@),
        overall_of(r.outcomes@) == OverallStatus::AllSuccess,
{
    assert forall|i: int| 0 <= i < r.outcomes@.len() implies (#[trigger] r.outcomes@[i]).status is Success by {
        assert(statuses[i] is Success);
    }
}

} // verus!
