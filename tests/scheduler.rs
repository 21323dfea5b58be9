use lingo::outcome::{AppStatus, BuildError, Step};
use lingo::scheduler::{Scheduler, Slot};

fn err() -> BuildError {
    BuildError::ProcessFailed { step: Step::Codegen, exit_code: Some(1), output: String::new() }
}

fn running(s: &Scheduler) -> usize {
    s.slots.iter().filter(|x| matches!(x, Slot::Running)).count()
}

#[test]
fn never_more_than_max_threads() {
    for max in 1..5usize {
        let mut s = Scheduler::new(10, max, true);
        let mut started = Vec::new();
        let mut done = 0;
        while !s.is_finished() {
            while let Some(i) = s.next_task() {
                started.push(i);
                assert!(running(&s) <= max);
                assert_eq!(s.running, running(&s));
            }
            let i = started[done];
            done += 1;
            s.complete(i, Ok(()));
            assert!(running(&s) <= max);
        }
        assert_eq!(started, (0..10).collect::<Vec<_>>());
        let st = s.into_statuses();
        assert!(st.iter().all(|x| matches!(x, AppStatus::Success)));
    }
}

#[test]
fn keep_going_runs_every_app() {
    let mut s = Scheduler::new(3, 1, true);
    let a = s.next_task().unwrap();
    s.complete(a, Err(err()));
    let b = s.next_task().unwrap();
    s.complete(b, Ok(()));
    let c = s.next_task().unwrap();
    s.complete(c, Err(err()));
    assert!(s.next_task().is_none());
    assert!(s.is_finished());
    let st = s.into_statuses();
    assert!(matches!(st[0], AppStatus::Failed(_)));
    assert!(matches!(st[1], AppStatus::Success));
    assert!(matches!(st[2], AppStatus::Failed(_)));
}

#[test]
fn fail_fast_marks_rest_not_attempted() {
    let mut s = Scheduler::new(4, 2, false);
    let a = s.next_task().unwrap();
    let b = s.next_task().unwrap();
    assert!(s.next_task().is_none());
    s.complete(a, Err(err()));
    assert!(s.stopped);
    assert!(s.next_task().is_none());
    assert!(!s.is_finished());
    s.complete(b, Ok(()));
    assert!(s.is_finished());
    let st = s.into_statuses();
    assert!(matches!(st[0], AppStatus::Failed(_)));
    assert!(matches!(st[1], AppStatus::Success));
    assert!(matches!(st[2], AppStatus::NotAttempted));
    assert!(matches!(st[3], AppStatus::NotAttempted));
}

#[test]
fn resume_skips_failed_apps() {
    let prior = vec![AppStatus::Failed(err()), AppStatus::Success, AppStatus::Success];
    let mut s = Scheduler::resume(prior, 1, true);
    assert_eq!(s.next_task(), Some(1));
    s.complete(1, Ok(()));
    assert_eq!(s.next_task(), Some(2));
    s.complete(2, Ok(()));
    assert_eq!(s.next_task(), None);
    let st = s.into_statuses();
    assert!(matches!(st[0], AppStatus::Failed(_)));
    assert!(matches!(st[2], AppStatus::Success));
}

#[test]
fn resume_fail_fast_starts_nothing_after_failure() {
    let prior = vec![AppStatus::Success, AppStatus::Failed(err())];
    let mut s = Scheduler::resume(prior, 1, false);
    assert!(s.stopped);
    assert_eq!(s.next_task(), None);
    let st = s.into_statuses();
    assert!(matches!(st[0], AppStatus::NotAttempted));
    assert!(matches!(st[1], AppStatus::Failed(_)));
}

#[test]
fn empty_stage_is_finished() {
    let mut s = Scheduler::new(0, 3, false);
    assert!(s.is_finished());
    assert_eq!(s.next_task(), None);
    assert!(s.into_statuses().is_empty());
}
