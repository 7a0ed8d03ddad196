use test_r_core::outcome::{CapturedOutput, SuiteResult, TestResult};
use test_r_core::registry::{
    CaptureControl, FlakinessControl, RegisteredTest, ShouldPanic, TestFunction, TestType,
};
use std::time::Duration;

type Result0 = TestResult<u32>;

fn test_named(name: &str) -> RegisteredTest {
    RegisteredTest {
        name: name.to_string(),
        crate_name: "c".to_string(),
        mod_path: "m".to_string(),
        is_ignored: false,
        should_panic: ShouldPanic::No,
        run: TestFunction::Sync(0),
        test_type: TestType::UnitTest,
        timeout: None,
        flakiness_control: FlakinessControl::Off,
        capture_control: CaptureControl::Default,
        tags: Vec::new(),
    }
}

fn ms(n: u64) -> Duration {
    Duration::from_millis(n)
}

#[test]
fn constructors_have_nothing_captured() {
    let p = Result0::passed(ms(3));
    assert!(p.is_passed() && !p.is_failed() && !p.is_ignored() && !p.is_benchmarked());
    assert!(p.captured_output().is_empty());
    let b = Result0::benchmarked(ms(3), 7, 12);
    assert!(b.is_benchmarked());
    let f = Result0::failed(ms(3), Some("boom".to_string()));
    assert!(f.is_failed());
    assert_eq!(f.failure_message(), Some("boom"));
    let i = Result0::ignored();
    assert!(i.is_ignored());
    assert_eq!(i.failure_message(), None);
}

#[test]
fn failure_without_string_payload_has_no_message() {
    let f = Result0::failed(ms(1), None);
    assert!(f.is_failed());
    assert_eq!(f.failure_message(), None);
}

#[test]
fn returned_test_passes_unless_panic_expected() {
    let r = Result0::from_result::<()>(&ShouldPanic::No, ms(1), Ok(()));
    assert!(r.is_passed());
    let r = Result0::from_result::<()>(&ShouldPanic::Yes, ms(1), Ok(()));
    assert!(r.is_failed());
    assert_eq!(r.failure_message(), Some("Test did not panic as expected"));
    let r = Result0::from_result::<()>(&ShouldPanic::WithMessage("x".to_string()), ms(1), Ok(()));
    assert_eq!(r.failure_message(), Some("Test did not panic as expected"));
}

#[test]
fn panicking_test_outcomes() {
    let r = Result0::from_result::<()>(&ShouldPanic::No, ms(1), Err(Some("oops".to_string())));
    assert_eq!(r.failure_message(), Some("oops"));
    let r = Result0::from_result::<()>(&ShouldPanic::Yes, ms(1), Err(None));
    assert!(r.is_passed());
}

#[test]
fn expected_panic_message() {
    let expected = ShouldPanic::WithMessage("index out".to_string());
    let r = Result0::from_result::<()>(&expected, ms(1), Err(Some("index out of bounds".to_string())));
    assert!(r.is_passed());
    let r = Result0::from_result::<()>(&expected, ms(1), Err(Some("overflow".to_string())));
    assert_eq!(r.failure_message(), Some("Test panicked with unexpected message: overflow"));
    let r = Result0::from_result::<()>(&expected, ms(1), Err(None));
    assert_eq!(r.failure_message(), Some("Test panicked with unexpected message: "));
}

#[test]
fn benchmark_throughput() {
    let r = Result0::from_summary(&ShouldPanic::No, ms(9), Ok((5, 250)), 1000);
    match r {
        TestResult::Benchmarked { mb_s, ns_iter_summ, exec_time, .. } => {
            assert_eq!(mb_s, 4000);
            assert_eq!(ns_iter_summ, 5);
            assert_eq!(exec_time, ms(9));
        }
        _ => panic!("expected a benchmark result"),
    }
    let r = Result0::from_summary(&ShouldPanic::No, ms(9), Ok((5, 0)), 3);
    match r {
        TestResult::Benchmarked { mb_s, .. } => assert_eq!(mb_s, 3000),
        _ => panic!("expected a benchmark result"),
    }
    let r = Result0::from_summary(&ShouldPanic::No, ms(9), Err(Some("bad".to_string())), 3);
    assert_eq!(r.failure_message(), Some("bad"));
}

#[test]
fn captured_output_read_after_write() {
    let mut r = Result0::failed(ms(1), Some("m".to_string()));
    let lines = vec![CapturedOutput::stdout("hello".to_string()), CapturedOutput::stderr("err".to_string())];
    r.set_captured_output(lines.clone());
    assert_eq!(r.captured_output(), &lines);
    assert!(r.is_failed());
    assert_eq!(r.failure_message(), Some("m"));
    assert_eq!(r.captured_output()[0].line(), "hello");
    assert_eq!(r.captured_output()[1].line(), "err");
    assert!(matches!(r.captured_output()[0], CapturedOutput::Stdout { .. }));
    assert!(matches!(r.captured_output()[1], CapturedOutput::Stderr { .. }));
    let mut i = Result0::ignored();
    i.set_captured_output(lines.clone());
    assert!(i.is_ignored());
    assert_eq!(i.captured_output().len(), 2);
}

#[test]
fn suite_counts_and_exit_code() {
    let registered: Vec<RegisteredTest> = (0..6).map(|i| test_named(&format!("t{}", i))).collect();
    let results: Vec<(RegisteredTest, Result0)> = vec![
        (test_named("t0"), Result0::passed(ms(1))),
        (test_named("t1"), Result0::passed(ms(1))),
        (test_named("t2"), Result0::failed(ms(1), None)),
        (test_named("t3"), Result0::ignored()),
        (test_named("t4"), Result0::benchmarked(ms(1), 1, 1)),
    ];
    let s = SuiteResult::from_test_results(&registered, &results, ms(42));
    assert_eq!(s.passed, 2);
    assert_eq!(s.failed, 1);
    assert_eq!(s.ignored, 1);
    assert_eq!(s.measured, 1);
    assert_eq!(s.filtered_out, 1);
    assert_eq!(s.exec_time, ms(42));
    assert_eq!(s.passed + s.failed + s.ignored + s.measured, results.len());
    assert_eq!(SuiteResult::exit_code(&results), 101);
    assert_eq!(SuiteResult::exit_code(&results[..2]), 0);
    assert_eq!(SuiteResult::exit_code::<u32>(&[]), 0);
}

#[test]
fn timestamp_and_line_accessors() {
    let a = CapturedOutput::stderr("line".to_string());
    match &a {
        CapturedOutput::Stderr { timestamp, line } => {
            assert_eq!(a.timestamp(), *timestamp);
            assert_eq!(a.line(), line.as_str());
        }
        _ => panic!("expected a stderr line"),
    }
}

#[test]
fn panicked_benchmark_ignores_byte_count() {
    let r = Result0::from_summary(&ShouldPanic::Yes, ms(2), Err(None), u64::MAX);
    assert!(r.is_passed());
    let r = Result0::from_summary(&ShouldPanic::No, ms(2), Err(Some("x".to_string())), u64::MAX);
    assert_eq!(r.failure_message(), Some("x"));
}
