//! A bounded worker pool's decisions: which app to start next, what to record
//! when one finishes, and when to stop starting new work.
//!
//! The pool itself (threads and processes) is driven from outside; every
//! decision it takes is made here.
use vstd::prelude::*;
use crate::outcome::{AppStatus, BuildError};

verus! {

/// The state of one app's task.
#[derive(Debug)]
pub enum Slot {
    /// Not started yet.
    Pending,
    /// Handed out and not yet reported back.
    Running,
    /// Settled: run to an end, or settled before this stage.
    Finished(AppStatus),
}

/// Number of running tasks.
pub open spec fn count_running(s: Seq<Slot>) -> nat
    decreases s.len(),
{
    if s.len() == 0 {
        0
    } else {
        (if s.last() is Running {
            1nat
        } else {
            0nat
        }) + count_running(s.drop_last())
    }
}

pub open spec fn has_pending(s: Seq<Slot>) -> bool {
    exists|j: int| 0 <= j < s.len() && s[j] is Pending
}

pub open spec fn is_failed_slot(s: Slot) -> bool {
    s matches Slot::Finished(AppStatus::Failed(_))
}

pub open spec fn has_failure(s: Seq<Slot>) -> bool {
    exists|j: int| 0 <= j < s.len() && is_failed_slot(#[trigger] s[j])
}

/// What a task's result is recorded as.
pub open spec fn status_of(r: Result<(), BuildError>) -> AppStatus {
    match r {
        Ok(_) => AppStatus::Success,
        Err(e) => AppStatus::Failed(e),
    }
}

/// The slot in which an app enters a later stage, given its earlier status.
pub open spec fn slot_after(s: AppStatus) -> Slot {
    match s {
        AppStatus::Success => Slot::Pending,
        _ => Slot::Finished(s),
    }
}

/// The final status of a settled or never-started slot.
pub open spec fn final_status(s: Slot) -> AppStatus {
    match s {
        Slot::Finished(st) => st,
        _ => AppStatus::NotAttempted,
    }
}

pub proof fn lemma_count_update(s: Seq<Slot>, i: int, x: Slot)
    requires
        0 <= i < s.len(),
    ensures
        count_running(s.update(i, x)) + (if s[i] is Running {
            1nat
        } else {
            0nat
        }) == count_running(s) + (if x is Running {
            1nat
        } else {
            0nat
        }),
    decreases s.len(),
{
    if i == s.len() - 1 {
        assert(s.update(i, x).drop_last() =~= s.drop_last());
    } else {
        assert(s.update(i, x).drop_last() =~= s.drop_last().update(i, x));
        lemma_count_update(s.drop_last(), i, x);
    }
}

pub proof fn lemma_none_running(s: Seq<Slot>)
    requires
        count_running(s) == 0,
    ensures
        forall|j: int| 0 <= j < s.len() ==> !(s[j] is Running),
    decreases s.len(),
{
    if s.len() > 0 {
        lemma_none_running(s.drop_last());
        assert forall|j: int| 0 <= j < s.len() implies !(s[j] is Running) by {
            if j < s.len() - 1 {
                assert(s.drop_last()[j] == s[j]);
            }
        }
    }
}

pub proof fn lemma_count_no_running(s: Seq<Slot>)
    requires
        forall|j: int| 0 <= j < s.len() ==> !(s[j] is Running),
    ensures
        count_running(s) == 0,
    decreases s.len(),
{
    if s.len() > 0 {
        lemma_count_no_running(s.drop_last());
    }
}

/// Hands out the apps of one stage to at most `max_threads` workers at a
/// time, in order, and records each result in the app's own slot.
#[derive(Debug)]
pub struct Scheduler {
    pub slots: Vec<Slot>,
    /// Slots before this index are no longer pending.
    pub next: usize,
    pub running: usize,
    pub max_threads: usize,
    pub keep_going: bool,
    /// Set once a failure is seen under the fail-fast policy.
    pub stopped: bool,
}

impl Scheduler {
    pub open spec fn wf(&self) -> bool {
        &&& self.max_threads >= 1
        &&& self.running == count_running(self.slots@)
        &&& self.running <= self.max_threads
        &&& self.next <= self.slots@.len()
        &&& forall|j: int| 0 <= j < self.next ==> !(#[trigger] self.slots@[j] is Pending)
        &&& self.keep_going ==> !self.stopped
        &&& self.stopped ==> has_failure(self.slots@)
    }

    /// Whether the next call of `next_task` starts an app.
    pub open spec fn may_start(&self) -> bool {
        !self.stopped && self.running < self.max_threads && has_pending(self.slots@)
    }

    /// Whether nothing runs and nothing more will be started.
    pub open spec fn finished_spec(&self) -> bool {
        self.running == 0 && (self.stopped || !has_pending(self.slots@))
    }

    /// A stage over `n` apps, none of them started.
    pub fn new(n: usize, max_threads: usize, keep_going: bool) -> (r: Scheduler)
        requires
            max_threads >= 1,
        ensures
            r.wf(),
            r.slots@.len() == n,
            forall|j: int| 0 <= j < n ==> r.slots@[j] is Pending,
            r.running == 0,
            r.max_threads == max_threads,
            r.keep_going == keep_going,
            !r.stopped,
    {
        let mut slots: Vec<Slot> = Vec::new();
        let mut i: usize = 0;
        while i < n
            invariant
                i <= n,
                slots@.len() == i,
                forall|j: int| 0 <= j < i ==> slots@[j] is Pending,
            decreases n - i,
        {
            slots.push(Slot::Pending);
            i = i + 1;
        }
        proof {
            lemma_count_no_running(slots@);
        }
        Scheduler { slots, next: 0, running: 0, max_threads, keep_going, stopped: false }
    }

    /// A later stage: the apps that succeeded so far are pending, the others
    /// keep their status. Under the fail-fast policy a failure so far stops
    /// the stage before it starts anything.
    pub fn resume(prior: Vec<AppStatus>, max_threads: usize, keep_going: bool) -> (r: Scheduler)
        requires
            max_threads >= 1,
        ensures
            r.wf(),
            r.slots@.len() == prior@.len(),
            forall|j: int| 0 <= j < prior@.len() ==> r.slots@[j] == slot_after(prior@[j]),
            r.running == 0,
            r.max_threads == max_threads,
            r.keep_going == keep_going,
            r.stopped == (!keep_going && has_failure(r.slots@)),
    {
        let ghost orig = prior@;
        let mut rest = prior;
        let mut slots: Vec<Slot> = Vec::new();
        let mut failed = false;
        while rest.len() > 0
            invariant
                slots@.len() + rest@.len() == orig.len(),
                rest@ == orig.subrange(slots@.len() as int, orig.len() as int),
                forall|j: int| 0 <= j < slots@.len() ==> slots@[j] == slot_after(orig[j]),
                failed == has_failure(slots@),
            decreases rest@.len(),
        {
            let ghost k: int = slots@.len() as int;
            let ghost before = slots@;
            let st = rest.remove(0);
            match st {
                AppStatus::Success => {
                    slots.push(Slot::Pending);
                },
                AppStatus::Failed(e) => {
                    slots.push(Slot::Finished(AppStatus::Failed(e)));
                    failed = true;
                },
                AppStatus::NotAttempted => {
                    slots.push(Slot::Finished(AppStatus::NotAttempted));
                },
            }
            assert(slots@.len() == k + 1);
            assert(forall|j: int| 0 <= j < k ==> slots@[j] == before[j]);
            assert(rest@ =~= orig.subrange(slots@.len() as int, orig.len() as int));
            proof {
                if has_failure(slots@) && !failed {
                    let j = choose|j: int|
                        0 <= j < slots@.len() && is_failed_slot(slots@[j]);
                    assert(j != k);
                    assert(before[j] == slots@[j]);
                }
                if failed && !has_failure(before) {
                    assert(is_failed_slot(slots@[k]));
                }
            }
        }
        proof {
            lemma_count_no_running(slots@);
        }
        Scheduler {
            slots,
            next: 0,
            running: 0,
            max_threads,
            keep_going,
            stopped: !keep_going && failed,
        }
    }

    /// Starts the first pending app when a worker is free and the stage is not
    /// stopped; returns its index.
    pub fn next_task(&mut self) -> (r: Option<usize>)
        requires
            old(self).wf(),
        ensures
            final(self).wf(),
            final(self).max_threads == old(self).max_threads,
            final(self).keep_going == old(self).keep_going,
            final(self).stopped == old(self).stopped,
            r is Some <==> old(self).may_start(),
            match r {
                Some(i) => {
                    &&& !old(self).stopped
                    &&& old(self).running < old(self).max_threads
                    &&& 0 <= i < old(self).slots@.len()
                    &&& old(self).slots@[i as int] is Pending
                    &&& forall|j: int| 0 <= j < i ==> !(old(self).slots@[j] is Pending)
                    &&& final(self).slots@ == old(self).slots@.update(i as int, Slot::Running)
                    &&& final(self).running == old(self).running + 1
                },
                None => {
                    &&& old(self).stopped || old(self).running == old(self).max_threads
                        || !has_pending(old(self).slots@)
                    &&& final(self).slots@ == old(self).slots@
                    &&& final(self).running == old(self).running
                },
            },
    {
        if self.stopped || self.running >= self.max_threads {
            return None;
        }
        let n = self.slots.len();
        while self.next < n && !matches!(self.slots[self.next], Slot::Pending)
            invariant
                self.wf(),
                n == self.slots@.len(),
                self.slots@ == old(self).slots@,
                self.running == old(self).running,
                self.running < self.max_threads,
                self.max_threads == old(self).max_threads,
                self.keep_going == old(self).keep_going,
                self.stopped == old(self).stopped,
                !self.stopped,
            decreases n - self.next,
        {
            self.next = self.next + 1;
        }
        if self.next == n {
            return None;
        }
        let i = self.next;
        proof {
            lemma_count_update(self.slots@, i as int, Slot::Running);
        }
        self.slots.set(i, Slot::Running);
        self.next = i + 1;
        self.running = self.running + 1;
        Some(i)
    }

    /// Records the result of the running task `i` in its slot. Under the
    /// fail-fast policy a failure stops the stage: running tasks may finish,
    /// nothing new starts.
    pub fn complete(&mut self, i: usize, result: Result<(), BuildError>)
        requires
            old(self).wf(),
            i < old(self).slots@.len(),
            old(self).slots@[i as int] is Running,
        ensures
            final(self).wf(),
            final(self).slots@ == old(self).slots@.update(i as int, Slot::Finished(status_of(result))),
            final(self).running == old(self).running - 1,
            final(self).max_threads == old(self).max_threads,
            final(self).keep_going == old(self).keep_going,
            final(self).stopped == (old(self).stopped || (!old(self).keep_going && result is Err)),
    {
        let failed = result.is_err();
        let status = match result {
            Ok(_) => AppStatus::Success,
            Err(e) => AppStatus::Failed(e),
        };
        proof {
            lemma_count_update(self.slots@, i as int, Slot::Finished(status));
        }
        self.slots.set(i, Slot::Finished(status));
        self.running = self.running - 1;
        if failed && !self.keep_going {
            assert(is_failed_slot(self.slots@[i as int]));
            self.stopped = true;
        }
        proof {
            if self.stopped && !failed {
                let j = choose|j: int|
                    0 <= j < old(self).slots@.len() && is_failed_slot(old(self).slots@[j]);
                assert(self.slots@[j] == old(self).slots@[j]);
            }
        }
    }

    /// Whether nothing runs and nothing more will be started.
    pub fn is_finished(&self) -> (r: bool)
        requires
            self.wf(),
        ensures
            r == self.finished_spec(),
    {
        if self.running != 0 {
            return false;
        }
        if self.stopped {
            return true;
        }
        let mut j: usize = self.next;
        while j < self.slots.len()
            invariant
                self.wf(),
                self.running == 0,
                !self.stopped,
                self.next <= j <= self.slots@.len(),
                forall|k: int| 0 <= k < j ==> !(#[trigger] self.slots@[k] is Pending),
            decreases self.slots@.len() - j,
        {
            match self.slots[j] {
                Slot::Pending => {
                    assert(self.slots@[j as int] is Pending);
                    assert(has_pending(self.slots@));
                    return false;
                },
                _ => {},
            }
            j = j + 1;
        }
        true
    }

    /// The status of every app once the stage is over: what each settled task
    /// recorded, and not attempted for each app never started.
    pub fn into_statuses(self) -> (r: Vec<AppStatus>)
        requires
            self.wf(),
            self.running == 0,
        ensures
            r@.len() == self.slots@.len(),
            forall|j: int| 0 <= j < r@.len() ==> r@[j] == final_status(self.slots@[j]),
    {
        let ghost orig = self.slots@;
        proof {
            lemma_none_running(orig);
        }
        let mut rest = self.slots;
        let mut out: Vec<AppStatus> = Vec::new();
        while rest.len() > 0
            invariant
                out@.len() + rest@.len() == orig.len(),
                rest@ == orig.subrange(out@.len() as int, orig.len() as int),
                forall|j: int| 0 <= j < out@.len() ==> out@[j] == final_status(orig[j]),
            decreases rest@.len(),
        {
            let ghost k = out@.len();
            let s = rest.remove(0);
            let st = match s {
                Slot::Finished(st) => st,
                _ => AppStatus::NotAttempted,
            };
            out.push(st);
            assert(rest@ =~= orig.subrange(out@.len() as int, orig.len() as int));
        }
        out
    }
}

/// At no point do more tasks run than there are workers.
pub proof fn lemma_bounded_concurrency(s: Scheduler)
    requires
        s.wf(),
    ensures
        count_running(s.slots@) <= s.max_threads,
{
}

/// Under keep-going, a stage that is over has settled every app: each one
/// holds the status its own task recorded (or brought from an earlier
/// stage), and none ends up not attempted for the sake of another's failure.
pub proof fn lemma_keep_going_attempts_all(s: Scheduler)
    requires
        s.wf(),
        s.keep_going,
        s.finished_spec(),
    ensures
        forall|j: int| 0 <= j < s.slots@.len() ==> (#[trigger] s.slots@[j]) is Finished,
{
    lemma_none_running(s.slots@);
}

/// A stage that is over with no failure recorded and nothing brought in as
/// not attempted has every app a success.
pub proof fn lemma_all_success_when_no_failure(s: Scheduler)
    requires
        s.wf(),
        s.finished_spec(),
        forall|j: int|
            0 <= j < s.slots@.len() ==> !is_failed_slot(#[trigger] s.slots@[j]) && !(
            s.slots@[j] matches Slot::Finished(AppStatus::NotAttempted)),
    ensures
        forall|j: int| 0 <= j < s.slots@.len() ==> final_status(#[trigger] s.slots@[j]) is Success,
{
    lemma_none_running(s.slots@);
    assert(!has_failure(s.slots@));
}

/// Under fail-fast, once a failure is recorded nothing more starts; the apps
/// not yet started end as not attempted rather than failed.
pub proof fn lemma_fail_fast_stops(s: Scheduler)
    requires
        s.wf(),
        s.stopped,
    ensures
        !s.may_start(),
        !s.keep_going,
        forall|j: int|
            0 <= j < s.slots@.len() && #[trigger] s.slots@[j] is Pending ==> final_status(
                s.slots@[j],
            ) is NotAttempted,
{
}

} // verus!
