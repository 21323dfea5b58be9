//! Per-app outcomes, their order-independent merge, and the batch report.
use vstd::prelude::*;

verus! {

/// The stage of an app's processing that an error is attributed to.
#[derive(Clone, Copy, Debug, PartialEq, Eq, Structural)]
pub enum Step {
    Codegen,
    /// Creating the build directory.
    Prepare,
    Configure,
    Compile,
    Install,
    Rename,
    Clean,
    Run,
}

/// Why one app's processing failed.
#[derive(Debug)]
pub enum BuildError {
    /// An external tool could not be located.
    ToolNotFound(String),
    /// An external process exited unsuccessfully, or was killed (no exit code).
    ProcessFailed { step: Step, exit_code: Option<i32>, output: String },
    /// Creating, renaming or deleting a file or directory failed.
    Filesystem { step: Step, detail: String },
}

/// One app's failure, attributed to the app by name.
#[derive(Debug)]
pub struct Failure {
    pub app: String,
    pub error: BuildError,
}

/// Success, or the failures of every app that failed.
pub type BuildResult = Result<(), Vec<Failure>>;

/// The failures that a result carries.
pub open spec fn failures_of(r: BuildResult) -> Seq<Failure> {
    match r {
        Ok(_) => Seq::empty(),
        Err(v) => v@,
    }
}

/// A result as a value: whether it succeeded, and its failures.
pub open spec fn outcome_of(r: BuildResult) -> (bool, Seq<Failure>) {
    (r is Ok, failures_of(r))
}

/// The merge on results as values.
pub open spec fn combine(x: (bool, Seq<Failure>), y: (bool, Seq<Failure>)) -> (bool, Seq<Failure>) {
    (x.0 && y.0, x.1 + y.1)
}

/// Merges two results: success only if both succeeded, and every failure of
/// either kept.
pub fn merge(a: BuildResult, b: BuildResult) -> (r: BuildResult)
    ensures
        outcome_of(r) == combine(outcome_of(a), outcome_of(b)),
{
    match (a, b) {
        (Ok(_), Ok(_)) => Ok(()),
        (Ok(_), Err(f)) => Err(f),
        (Err(f), Ok(_)) => {
            assert(f@ + Seq::<Failure>::empty() =~= f@);
            Err(f)
        },
        (Err(mut f), Err(mut g)) => {
            f.append(&mut g);
            Err(f)
        },
    }
}

/// Merging is associative: grouping does not change the merged result.
pub proof fn lemma_merge_associative(a: BuildResult, b: BuildResult, c: BuildResult)
    ensures
        combine(combine(outcome_of(a), outcome_of(b)), outcome_of(c)) == combine(
            outcome_of(a),
            combine(outcome_of(b), outcome_of(c)),
        ),
{
    assert(failures_of(a) + failures_of(b) + failures_of(c) =~= failures_of(a) + (failures_of(b)
        + failures_of(c)));
}

/// Merging is commutative on what is reported: swapping the operands keeps
/// success and the set of failures.
pub proof fn lemma_merge_commutative(a: BuildResult, b: BuildResult)
    ensures
        combine(outcome_of(a), outcome_of(b)).0 == combine(outcome_of(b), outcome_of(a)).0,
        combine(outcome_of(a), outcome_of(b)).1.to_set() == combine(
            outcome_of(b),
            outcome_of(a),
        ).1.to_set(),
{
    let x = failures_of(a);
    let y = failures_of(b);
    assert forall|f: Failure| (x + y).contains(f) <==> (y + x).contains(f) by {
        if (x + y).contains(f) {
            let i = choose|i: int| 0 <= i < (x + y).len() && (x + y)[i] == f;
            if i < x.len() {
                assert((y + x)[y.len() + i] == f);
            } else {
                assert((y + x)[i - x.len()] == f);
            }
        }
        if (y + x).contains(f) {
            let i = choose|i: int| 0 <= i < (y + x).len() && (y + x)[i] == f;
            if i < y.len() {
                assert((x + y)[x.len() + i] == f);
            } else {
                assert((x + y)[i - y.len()] == f);
            }
        }
    }
    assert((x + y).to_set() =~= (y + x).to_set());
}

/// What became of one app in a batch.
#[derive(Debug)]
pub enum AppStatus {
    Success,
    Failed(BuildError),
    /// Not started because an earlier app failed under the fail-fast policy.
    NotAttempted,
}

/// One app's line of the batch report.
#[derive(Debug)]
pub struct AppOutcome {
    pub app: String,
    pub status: AppStatus,
}

/// Overall status of a batch.
#[derive(Clone, Copy, Debug, PartialEq, Eq, Structural)]
pub enum OverallStatus {
    AllSuccess,
    PartialFailure,
    TotalFailure,
}

pub open spec fn all_succeeded(s: Seq<AppOutcome>) -> bool {
    forall|i: int| 0 <= i < s.len() ==> s[i].status is Success
}

pub open spec fn none_succeeded(s: Seq<AppOutcome>) -> bool {
    forall|i: int| 0 <= i < s.len() ==> !(s[i].status is Success)
}

pub open spec fn overall_of(s: Seq<AppOutcome>) -> OverallStatus {
    if all_succeeded(s) {
        OverallStatus::AllSuccess
    } else if none_succeeded(s) {
        OverallStatus::TotalFailure
    } else {
        OverallStatus::PartialFailure
    }
}

/// The failures among the outcomes, in order.
pub open spec fn failures_in(s: Seq<AppOutcome>) -> Seq<(Seq<char>, BuildError)>
    decreases s.len(),
{
    if s.len() == 0 {
        Seq::empty()
    } else {
        let rest = failures_in(s.drop_first());
        match s[0].status {
            AppStatus::Failed(e) => seq![(s[0].app@, e)] + rest,
            _ => rest,
        }
    }
}

pub open spec fn step_name(s: Step) -> Seq<char> {
    match s {
        Step::Codegen => "codegen"@,
        Step::Prepare => "prepare"@,
        Step::Configure => "configure"@,
        Step::Compile => "compile"@,
        Step::Install => "install"@,
        Step::Rename => "rename"@,
        Step::Clean => "clean"@,
        Step::Run => "run"@,
    }
}

pub open spec fn error_text(e: BuildError) -> Seq<char> {
    match e {
        BuildError::ToolNotFound(t) => "tool not found: "@ + t@,
        BuildError::ProcessFailed { step, output, .. } => step_name(step) + " failed: "@ + output@,
        BuildError::Filesystem { step, detail } => step_name(step) + " failed: "@ + detail@,
    }
}

pub open spec fn status_text(s: AppStatus) -> Seq<char> {
    match s {
        AppStatus::Success => "success"@,
        AppStatus::NotAttempted => "not attempted"@,
        AppStatus::Failed(e) => "failed at "@ + error_text(e),
    }
}

/// The report line of one outcome: `name: status`.
pub open spec fn line_of(o: AppOutcome) -> Seq<char> {
    o.app@ + ": "@ + status_text(o.status)
}

/// The name of a step, as it appears in reports.
pub fn step_label(s: Step) -> (r: &'static str)
    ensures
        r@ == step_name(s),
{
    match s {
        Step::Codegen => "codegen",
        Step::Prepare => "prepare",
        Step::Configure => "configure",
        Step::Compile => "compile",
        Step::Install => "install",
        Step::Rename => "rename",
        Step::Clean => "clean",
        Step::Run => "run",
    }
}

impl BuildError {
    /// A description of the error naming the failing step and the captured output.
    pub fn describe(&self) -> (r: String)
        ensures
            r@ == error_text(*self),
    {
        match self {
            BuildError::ToolNotFound(t) => String::from_str("tool not found: ").concat(t.as_str()),
            BuildError::ProcessFailed { step, output, .. } => String::from_str(
                step_label(*step),
            ).concat(" failed: ").concat(output.as_str()),
            BuildError::Filesystem { step, detail } => String::from_str(step_label(*step)).concat(
                " failed: ",
            ).concat(detail.as_str()),
        }
    }
}

impl AppStatus {
    pub fn describe(&self) -> (r: String)
        ensures
            r@ == status_text(*self),
    {
        match self {
            AppStatus::Success => String::from_str("success"),
            AppStatus::NotAttempted => String::from_str("not attempted"),
            AppStatus::Failed(e) => {
                let d = e.describe();
                String::from_str("failed at ").concat(d.as_str())
            },
        }
    }
}

/// The outcome of every app of one batch command, in the order of the apps.
#[derive(Debug)]
pub struct BatchBuildResults {
    pub outcomes: Vec<AppOutcome>,
}

impl BatchBuildResults {
    pub fn new() -> (r: BatchBuildResults)
        ensures
            r.outcomes@.len() == 0,
    {
        BatchBuildResults { outcomes: Vec::new() }
    }

    /// Records the outcome of one more app.
    pub fn record(&mut self, app: String, status: AppStatus)
        ensures
            final(self).outcomes@ == old(self).outcomes@.push(AppOutcome { app, status }),
    {
        self.outcomes.push(AppOutcome { app, status });
    }

    /// Whether every app succeeded: the exit status of the command.
    pub fn is_success(&self) -> (r: bool)
        ensures
            r == all_succeeded(self.outcomes@),
    {
        let mut i: usize = 0;
        while i < self.outcomes.len()
            invariant
                i <= self.outcomes@.len(),
                forall|j: int| 0 <= j < i ==> self.outcomes@[j].status is Success,
            decreases self.outcomes@.len() - i,
        {
            match self.outcomes[i].status {
                AppStatus::Success => {},
                _ => {
                    return false;
                },
            }
            i = i + 1;
        }
        true
    }

    /// All-success, total failure (no app succeeded, at least one app), or
    /// partial failure.
    pub fn overall(&self) -> (r: OverallStatus)
        ensures
            r == overall_of(self.outcomes@),
    {
        let mut any_ok = false;
        let mut any_bad = false;
        let mut i: usize = 0;
        while i < self.outcomes.len()
            invariant
                i <= self.outcomes@.len(),
                any_ok == exists|j: int| 0 <= j < i && self.outcomes@[j].status is Success,
                any_bad == exists|j: int| 0 <= j < i && !(self.outcomes@[j].status is Success),
            decreases self.outcomes@.len() - i,
        {
            match self.outcomes[i].status {
                AppStatus::Success => {
                    any_ok = true;
                },
                _ => {
                    any_bad = true;
                },
            }
            i = i + 1;
        }
        if !any_bad {
            OverallStatus::AllSuccess
        } else if !any_ok {
            OverallStatus::TotalFailure
        } else {
            OverallStatus::PartialFailure
        }
    }

    /// One line of status per app, in order.
    pub fn report_lines(&self) -> (r: Vec<String>)
        ensures
            r@.len() == self.outcomes@.len(),
            forall|i: int| 0 <= i < r@.len() ==> r@[i]@ == line_of(self.outcomes@[i]),
    {
        let mut lines: Vec<String> = Vec::new();
        let mut i: usize = 0;
        while i < self.outcomes.len()
            invariant
                i <= self.outcomes@.len(),
                lines@.len() == i,
                forall|j: int| 0 <= j < i ==> lines@[j]@ == line_of(self.outcomes@[j]),
            decreases self.outcomes@.len() - i,
        {
            let o = &self.outcomes[i];
            let s = o.status.describe();
            let line = o.app.clone().concat(": ").concat(s.as_str());
            lines.push(line);
            i = i + 1;
        }
        lines
    }

    /// The batch as one result: success when every app succeeded, else the
    /// composite of every app's failure, attributed to the app.
    pub fn into_result(self) -> (r: BuildResult)
        ensures
            r is Ok <==> all_succeeded(self.outcomes@),
            failures_of(r).map_values(|f: Failure| (f.app@, f.error)) == failures_in(
                self.outcomes@,
            ),
    {
        let ghost orig = self.outcomes@;
        let ok = self.is_success();
        let mut rest = self.outcomes;
        let mut out: Vec<Failure> = Vec::new();
        assert(orig.subrange(0, 0) =~= Seq::<AppOutcome>::empty());
        while rest.len() > 0
            invariant
                out@.map_values(|f: Failure| (f.app@, f.error)) + failures_in(rest@)
                    == failures_in(orig),
            decreases rest@.len(),
        {
            let ghost before = rest@;
            let o = rest.remove(0);
            assert(rest@ =~= before.drop_first());
            match o.status {
                AppStatus::Failed(e) => {
                    let ghost old_out = out@;
                    out.push(Failure { app: o.app, error: e });
                    assert(out@.map_values(|f: Failure| (f.app@, f.error)) =~= old_out.map_values(
                        |f: Failure| (f.app@, f.error),
                    ).push((before[0].app@, e)));
                    assert(old_out.map_values(|f: Failure| (f.app@, f.error)) + seq![
                        (before[0].app@, e),
                    ] + failures_in(rest@) =~= old_out.map_values(|f: Failure| (f.app@, f.error))
                        + (seq![(before[0].app@, e)] + failures_in(rest@)));
                },
                _ => {},
            }
        }
        assert(failures_in(rest@) =~= Seq::<(Seq<char>, BuildError)>::empty());
        assert(out@.map_values(|f: Failure| (f.app@, f.error)) + Seq::<
            (Seq<char>, BuildError),
        >::empty() =~= out@.map_values(|f: Failure| (f.app@, f.error)));
        if ok {
            proof {
                lemma_no_failures_when_all_succeed(orig);
            }
            assert(out@.map_values(|f: Failure| (f.app@, f.error)).len() == 0);
            Ok(())
        } else {
            Err(out)
        }
    }
}

pub proof fn lemma_no_failures_when_all_succeed(s: Seq<AppOutcome>)
    requires
        all_succeeded(s),
    ensures
        failures_in(s).len() == 0,
    decreases s.len(),
{
    if s.len() > 0 {
        assert(all_succeeded(s.drop_first()));
        lemma_no_failures_when_all_succeed(s.drop_first());
    }
}

/// When every app succeeds, the report marks each of them a success, the
/// overall status is all-success, and the batch carries no failure.
pub proof fn lemma_all_success_report(s: Seq<AppOutcome>)
    requires
        forall|i: int| 0 <= i < s.len() ==> (#[trigger] s[i]).status is Success,
    ensures
        overall_of(s) == OverallStatus::AllSuccess,
        all_succeeded(s),
        failures_in(s).len() == 0,
        forall|i: int| 0 <= i < s.len() ==> line_of(#[trigger] s[i]) == s[i].app@ + ": "@
            + "success"@,
{
    lemma_no_failures_when_all_succeed(s);
}

} // verus!
