use lingo::outcome::{
    merge, AppStatus, BatchBuildResults, BuildError, Failure, OverallStatus, Step,
};

fn fail(app: &str, out: &str) -> Failure {
    Failure {
        app: app.to_string(),
        error: BuildError::ProcessFailed { step: Step::Compile, exit_code: Some(2), output: out.to_string() },
    }
}

#[test]
fn merge_two_successes() {
    assert!(merge(Ok(()), Ok(())).is_ok());
}

#[test]
fn merge_success_and_failure_keeps_failure() {
    let r = merge(Ok(()), Err(vec![fail("a", "x")]));
    let f = r.unwrap_err();
    assert_eq!(f.len(), 1);
    assert_eq!(f[0].app, "a");
    let r = merge(Err(vec![fail("b", "y")]), Ok(()));
    assert_eq!(r.unwrap_err()[0].app, "b");
}

#[test]
fn merge_two_failures_enumerates_both() {
    let r = merge(Err(vec![fail("a", "x")]), Err(vec![fail("b", "y")]));
    let names: Vec<String> = r.unwrap_err().into_iter().map(|f| f.app).collect();
    assert_eq!(names, vec!["a".to_string(), "b".to_string()]);
}

#[test]
fn merge_order_keeps_failure_set() {
    let ab = merge(Err(vec![fail("a", "x")]), Err(vec![fail("b", "y")])).unwrap_err();
    let ba = merge(Err(vec![fail("b", "y")]), Err(vec![fail("a", "x")])).unwrap_err();
    let mut x: Vec<String> = ab.into_iter().map(|f| f.app).collect();
    let mut y: Vec<String> = ba.into_iter().map(|f| f.app).collect();
    x.sort();
    y.sort();
    assert_eq!(x, y);
}

#[test]
fn all_success_batch() {
    let mut b = BatchBuildResults::new();
    for n in ["a", "b", "c"] {
        b.record(n.to_string(), AppStatus::Success);
    }
    assert!(b.is_success());
    assert_eq!(b.overall(), OverallStatus::AllSuccess);
    assert_eq!(b.report_lines(), vec!["a: success", "b: success", "c: success"]);
    assert!(b.into_result().is_ok());
}

#[test]
fn empty_batch_is_success() {
    let b = BatchBuildResults::new();
    assert!(b.is_success());
    assert_eq!(b.overall(), OverallStatus::AllSuccess);
}

#[test]
fn partial_and_total_failure() {
    let mut b = BatchBuildResults::new();
    b.record("a".to_string(), AppStatus::Success);
    b.record("b".to_string(), AppStatus::Failed(BuildError::ToolNotFound("lfc".to_string())));
    b.record("c".to_string(), AppStatus::NotAttempted);
    assert!(!b.is_success());
    assert_eq!(b.overall(), OverallStatus::PartialFailure);
    assert_eq!(
        b.report_lines(),
        vec!["a: success", "b: failed at tool not found: lfc", "c: not attempted"]
    );
    let f = b.into_result().unwrap_err();
    assert_eq!(f.len(), 1);
    assert_eq!(f[0].app, "b");

    let mut t = BatchBuildResults::new();
    t.record("a".to_string(), AppStatus::NotAttempted);
    t.record(
        "b".to_string(),
        AppStatus::Failed(BuildError::Filesystem { step: Step::Rename, detail: "gone".to_string() }),
    );
    assert_eq!(t.overall(), OverallStatus::TotalFailure);
    assert_eq!(t.report_lines()[1], "b: failed at rename failed: gone");
}

#[test]
fn report_shows_step_and_output() {
    let mut b = BatchBuildResults::new();
    b.record(
        "app".to_string(),
        AppStatus::Failed(BuildError::ProcessFailed {
            step: Step::Configure,
            exit_code: Some(1),
            output: "no CMakeLists.txt".to_string(),
        }),
    );
    assert_eq!(b.report_lines(), vec!["app: failed at configure failed: no CMakeLists.txt"]);
}
