use brillig_ir::test_report::{
    all_passed_message, compile_failure_message, testing_message, NoticeColor, TestNotice,
    TestOutcome, TestReport,
};

#[test]
fn announcement_counts_the_test_functions() {
    assert_eq!(TestReport::new(0).running_message(), "Running 0 test functions...");
    assert_eq!(TestReport::new(1).running_message(), "Running 1 test functions...");
    assert_eq!(TestReport::new(12).running_message(), "Running 12 test functions...");
}

#[test]
fn each_test_is_announced_by_name() {
    assert_eq!(testing_message("test_add"), "Testing test_add...");
    assert_eq!(testing_message(""), "Testing ...");
}

#[test]
fn compile_failure_names_the_test() {
    assert_eq!(compile_failure_message("test_add"), "Test 'test_add' failed to compile");
}

#[test]
fn notices_of_outcomes() {
    let mut report = TestReport::new(3);
    assert_eq!(report.record(TestOutcome::Passed), TestNotice::Passed);
    assert_eq!(report.record(TestOutcome::FailedToCompile), TestNotice::Silent);
    assert_eq!(report.record(TestOutcome::FailedToExecute), TestNotice::Failed);
    assert_eq!(TestNotice::Passed.word(), Some((NoticeColor::Green, "ok")));
    assert_eq!(TestNotice::Failed.word(), Some((NoticeColor::Red, "failed")));
    assert_eq!(TestNotice::Silent.word(), None);
}

#[test]
fn counts_follow_the_outcomes() {
    let mut report = TestReport::new(4);
    assert_eq!((report.total(), report.remaining(), report.failing()), (4, 4, 0));
    report.record(TestOutcome::Passed);
    assert_eq!((report.total(), report.remaining(), report.failing()), (4, 3, 0));
    report.record(TestOutcome::FailedToExecute);
    assert_eq!((report.total(), report.remaining(), report.failing()), (4, 2, 1));
    report.record(TestOutcome::FailedToCompile);
    assert_eq!((report.total(), report.remaining(), report.failing()), (4, 1, 2));
    report.record(TestOutcome::Passed);
    assert_eq!((report.total(), report.remaining(), report.failing()), (4, 0, 2));
}

#[test]
fn run_without_tests_ends_well() {
    assert_eq!(TestReport::new(0).finish(), Ok(()));
}

#[test]
fn run_of_passing_tests_ends_well() {
    let mut report = TestReport::new(2);
    report.record(TestOutcome::Passed);
    report.record(TestOutcome::Passed);
    assert_eq!(report.finish(), Ok(()));
    assert_eq!(all_passed_message(), (NoticeColor::Green, "All tests passed"));
}

#[test]
fn one_failure_is_reported_in_the_singular() {
    let mut report = TestReport::new(2);
    report.record(TestOutcome::Passed);
    report.record(TestOutcome::FailedToExecute);
    assert_eq!(report.finish(), Err("1 test failed".to_string()));
}

#[test]
fn several_failures_are_reported_in_the_plural() {
    let mut report = TestReport::new(12);
    for _ in 0..11 {
        report.record(TestOutcome::FailedToCompile);
    }
    assert_eq!(report.finish(), Err("11 tests failed".to_string()));
    report.record(TestOutcome::Passed);
    assert_eq!(report.finish(), Err("11 tests failed".to_string()));
}
