//! The outcome of running tests: per-test results, captured output, and the suite summary.
use vstd::prelude::*;
use vstd::string::*;
use std::time::{Duration, SystemTime};
use crate::text::{contains_seq, str_contains};
use crate::registry::{RegisteredTest, ShouldPanic};

verus! {

#[verifier::external_type_specification]
#[verifier::external_body]
pub struct ExSystemTime(SystemTime);

/// `SystemTime::clone`: `SystemTime` is `Copy`, so a clone is the same instant.
pub assume_specification[ <SystemTime as Clone>::clone ](t: &SystemTime) -> (r: SystemTime)
    ensures
        r == *t,
;

/// Reads the system clock with `SystemTime::now`. Nothing is claimed of the value: it
/// depends on the time of the call.
#[verifier::external_body]
fn system_time_now() -> SystemTime {
    SystemTime::now()
}

/// A line that a test wrote, with the time it was captured.
#[derive(Debug, Clone, Eq, PartialEq)]
pub enum CapturedOutput {
    Stdout { timestamp: SystemTime, line: String },
    Stderr { timestamp: SystemTime, line: String },
}

impl CapturedOutput {
    pub open spec fn spec_line(&self) -> Seq<char> {
        match self {
            CapturedOutput::Stdout { line, .. } => line@,
            CapturedOutput::Stderr { line, .. } => line@,
        }
    }

    pub open spec fn spec_timestamp(&self) -> SystemTime {
        match self {
            CapturedOutput::Stdout { timestamp, .. } => *timestamp,
            CapturedOutput::Stderr { timestamp, .. } => *timestamp,
        }
    }

    /// A line written to standard output, stamped with the current time.
    pub fn stdout(line: String) -> (r: Self)
        ensures
            r is Stdout,
            r.spec_line() == line@,
    {
        CapturedOutput::Stdout { timestamp: system_time_now(), line }
    }

    /// A line written to standard error, stamped with the current time.
    pub fn stderr(line: String) -> (r: Self)
        ensures
            r is Stderr,
            r.spec_line() == line@,
    {
        CapturedOutput::Stderr { timestamp: system_time_now(), line }
    }

    pub fn timestamp(&self) -> (r: SystemTime)
        ensures
            r == self.spec_timestamp(),
    {
        match self {
            CapturedOutput::Stdout { timestamp, .. } => *timestamp,
            CapturedOutput::Stderr { timestamp, .. } => *timestamp,
        }
    }

    pub fn line(&self) -> (r: &str)
        ensures
            r@ == self.spec_line(),
    {
        match self {
            CapturedOutput::Stdout { line, .. } => line.as_str(),
            CapturedOutput::Stderr { line, .. } => line.as_str(),
        }
    }
}

/// The result of one test. `S` is the statistics of a benchmark's iterations. A failure holds
/// the panic's message when the panic's payload was a string, `None` otherwise.
pub enum TestResult<S> {
    Passed { captured: Vec<CapturedOutput>, exec_time: Duration },
    Benchmarked { captured: Vec<CapturedOutput>, exec_time: Duration, ns_iter_summ: S, mb_s: usize },
    Failed { panic: Option<String>, captured: Vec<CapturedOutput>, exec_time: Duration },
    Ignored { captured: Vec<CapturedOutput> },
}

/// The abstract value of a test result: its captured lines as a sequence and the panic
/// message as characters.
pub enum ResultView<S> {
    Passed { captured: Seq<CapturedOutput>, exec_time: Duration },
    Benchmarked { captured: Seq<CapturedOutput>, exec_time: Duration, ns_iter_summ: S, mb_s: usize },
    Failed { panic: Option<Seq<char>>, captured: Seq<CapturedOutput>, exec_time: Duration },
    Ignored { captured: Seq<CapturedOutput> },
}

/// The characters of an optional message.
pub open spec fn message_view(m: Option<String>) -> Option<Seq<char>> {
    match m {
        Some(s) => Some(s@),
        None => None,
    }
}

impl<S> View for TestResult<S> {
    type V = ResultView<S>;

    open spec fn view(&self) -> ResultView<S> {
        match self {
            TestResult::Passed { captured, exec_time } => ResultView::Passed {
                captured: captured@,
                exec_time: *exec_time,
            },
            TestResult::Benchmarked { captured, exec_time, ns_iter_summ, mb_s } =>
                ResultView::Benchmarked {
                    captured: captured@,
                    exec_time: *exec_time,
                    ns_iter_summ: *ns_iter_summ,
                    mb_s: *mb_s,
                },
            TestResult::Failed { panic, captured, exec_time } => ResultView::Failed {
                panic: message_view(*panic),
                captured: captured@,
                exec_time: *exec_time,
            },
            TestResult::Ignored { captured } => ResultView::Ignored { captured: captured@ },
        }
    }
}

impl<S> ResultView<S> {
    /// The captured lines of any kind of result.
    pub open spec fn captured(self) -> Seq<CapturedOutput> {
        match self {
            ResultView::Passed { captured, .. } => captured,
            ResultView::Benchmarked { captured, .. } => captured,
            ResultView::Failed { captured, .. } => captured,
            ResultView::Ignored { captured } => captured,
        }
    }

    /// The same result with other captured lines.
    pub open spec fn with_captured(self, c: Seq<CapturedOutput>) -> ResultView<S> {
        match self {
            ResultView::Passed { exec_time, .. } => ResultView::Passed { captured: c, exec_time },
            ResultView::Benchmarked { exec_time, ns_iter_summ, mb_s, .. } =>
                ResultView::Benchmarked { captured: c, exec_time, ns_iter_summ, mb_s },
            ResultView::Failed { panic, exec_time, .. } => ResultView::Failed {
                panic,
                captured: c,
                exec_time,
            },
            ResultView::Ignored { .. } => ResultView::Ignored { captured: c },
        }
    }

    /// The message of a failure whose panic carried a string.
    pub open spec fn failure_message(self) -> Option<Seq<char>> {
        match self {
            ResultView::Failed { panic, .. } => panic,
            _ => None,
        }
    }
}

/// A passed result with nothing captured.
pub open spec fn passed_view<S>(exec_time: Duration) -> ResultView<S> {
    ResultView::Passed { captured: Seq::empty(), exec_time }
}

/// A failed result with nothing captured.
pub open spec fn failed_view<S>(exec_time: Duration, panic: Option<Seq<char>>) -> ResultView<S> {
    ResultView::Failed { panic, captured: Seq::empty(), exec_time }
}

/// The message of a test that was expected to panic and returned.
pub open spec fn did_not_panic_message() -> Seq<char> {
    "Test did not panic as expected"@
}

/// The start of the message of a test that panicked with an unexpected message.
pub open spec fn unexpected_message_prefix() -> Seq<char> {
    "Test panicked with unexpected message: "@
}

/// The result of a test that panicked, given what it was expected to do: a test expected to
/// panic passes; one expected to panic with a message passes when the panic's message holds
/// the expected text and fails otherwise, naming the message it got; one not expected to panic
/// fails with the panic's message.
pub open spec fn panic_outcome<S>(
    should_panic: ShouldPanic,
    elapsed: Duration,
    panic: Option<Seq<char>>,
) -> ResultView<S> {
    match should_panic {
        ShouldPanic::WithMessage(expected) => {
            if panic is Some && contains_seq(panic->0, expected@) {
                passed_view(elapsed)
            } else {
                failed_view(
                    elapsed,
                    Some(
                        unexpected_message_prefix() + if panic is Some {
                            panic->0
                        } else {
                            Seq::empty()
                        },
                    ),
                )
            }
        },
        ShouldPanic::Yes => passed_view(elapsed),
        ShouldPanic::No => failed_view(elapsed, panic),
    }
}

/// The result of a test that returned, given what it was expected to do.
pub open spec fn return_outcome<S>(should_panic: ShouldPanic, elapsed: Duration) -> ResultView<S> {
    if should_panic == ShouldPanic::No {
        passed_view(elapsed)
    } else {
        failed_view(elapsed, Some(did_not_panic_message()))
    }
}

/// Throughput in MB/s of `bytes` processed per iteration at `median_ns` nanoseconds per
/// iteration (at least one).
pub open spec fn throughput(bytes: u64, median_ns: u64) -> int {
    let ns_iter: int = if median_ns >= 1 {
        median_ns as int
    } else {
        1
    };
    (bytes * 1000) / ns_iter
}

impl<S> TestResult<S> {
    pub fn passed(exec_time: Duration) -> (r: Self)
        ensures
            r@ == passed_view::<S>(exec_time),
    {
        let r = TestResult::Passed { captured: Vec::new(), exec_time };
        proof {
            assert(r@.captured() =~= Seq::<CapturedOutput>::empty());
        }
        r
    }

    pub fn benchmarked(exec_time: Duration, ns_iter_summ: S, mb_s: usize) -> (r: Self)
        ensures
            r@ == (ResultView::Benchmarked {
                captured: Seq::empty(),
                exec_time,
                ns_iter_summ,
                mb_s,
            }),
    {
        let r = TestResult::Benchmarked { captured: Vec::new(), exec_time, ns_iter_summ, mb_s };
        proof {
            assert(r@.captured() =~= Seq::<CapturedOutput>::empty());
        }
        r
    }

    pub fn failed(exec_time: Duration, panic: Option<String>) -> (r: Self)
        ensures
            r@ == failed_view::<S>(exec_time, message_view(panic)),
    {
        let r = TestResult::Failed { panic, captured: Vec::new(), exec_time };
        proof {
            assert(r@.captured() =~= Seq::<CapturedOutput>::empty());
        }
        r
    }

    pub fn ignored() -> (r: Self)
        ensures
            r@ == (ResultView::<S>::Ignored { captured: Seq::empty() }),
    {
        let r = TestResult::Ignored { captured: Vec::new() };
        proof {
            assert(r@.captured() =~= Seq::<CapturedOutput>::empty());
        }
        r
    }

    pub fn is_passed(&self) -> (r: bool)
        ensures
            r == (self@ is Passed),
    {
        match self {
            TestResult::Passed { .. } => true,
            _ => false,
        }
    }

    pub fn is_benchmarked(&self) -> (r: bool)
        ensures
            r == (self@ is Benchmarked),
    {
        match self {
            TestResult::Benchmarked { .. } => true,
            _ => false,
        }
    }

    pub fn is_failed(&self) -> (r: bool)
        ensures
            r == (self@ is Failed),
    {
        match self {
            TestResult::Failed { .. } => true,
            _ => false,
        }
    }

    pub fn is_ignored(&self) -> (r: bool)
        ensures
            r == (self@ is Ignored),
    {
        match self {
            TestResult::Ignored { .. } => true,
            _ => false,
        }
    }

    /// The message of a failure whose panic carried a string; `None` for any other result.
    pub fn failure_message(&self) -> (r: Option<&str>)
        ensures
            match r {
                Some(m) => self@.failure_message() == Some(m@),
                None => self@.failure_message() is None,
            },
    {
        match self {
            TestResult::Failed { panic, .. } => match panic {
                Some(m) => Some(m.as_str()),
                None => None,
            },
            _ => None,
        }
    }

    pub fn captured_output(&self) -> (r: &Vec<CapturedOutput>)
        ensures
            r@ == self@.captured(),
    {
        match self {
            TestResult::Passed { captured, .. } => captured,
            TestResult::Failed { captured, .. } => captured,
            TestResult::Ignored { captured, .. } => captured,
            TestResult::Benchmarked { captured, .. } => captured,
        }
    }

    /// Replaces the captured lines, keeping the kind of result and everything else.
    pub fn set_captured_output(&mut self, captured: Vec<CapturedOutput>)
        ensures
            final(self)@ == old(self)@.with_captured(captured@),
    {
        match self {
            TestResult::Passed { captured: captured_ref, .. } => *captured_ref = captured,
            TestResult::Failed { captured: captured_ref, .. } => *captured_ref = captured,
            TestResult::Ignored { captured: captured_ref } => *captured_ref = captured,
            TestResult::Benchmarked { captured: captured_ref, .. } => *captured_ref = captured,
        }
    }

    /// The result of a test run: `Ok` when it returned, `Err` with the panic's message
    /// (when it had one) when it panicked.
    pub fn from_result<A>(
        should_panic: &ShouldPanic,
        elapsed: Duration,
        result: Result<A, Option<String>>,
    ) -> (r: Self)
        ensures
            r@ == match result {
                Ok(_) => return_outcome::<S>(*should_panic, elapsed),
                Err(p) => panic_outcome::<S>(*should_panic, elapsed, message_view(p)),
            },
    {
        match result {
            Ok(_) => {
                let no_panic_expected = match should_panic {
                    ShouldPanic::No => true,
                    _ => false,
                };
                if no_panic_expected {
                    TestResult::passed(elapsed)
                } else {
                    let msg: &str = "Test did not panic as expected";
                    TestResult::failed(elapsed, Some(String::from_str(msg)))
                }
            },
            Err(panic) => Self::from_panic(should_panic, elapsed, panic),
        }
    }

    /// The result of a benchmark run: `Ok` with the statistics and the median nanoseconds
    /// per iteration (as a whole number) when it completed, `Err` with the panic's message
    /// when it panicked. `bytes` is the amount of data one iteration processes.
    pub fn from_summary(
        should_panic: &ShouldPanic,
        elapsed: Duration,
        result: Result<(S, u64), Option<String>>,
        bytes: u64,
    ) -> (r: Self)
        requires
            result is Ok ==> bytes * 1000 <= u64::MAX,
        ensures
            r@ == match result {
                Ok((summary, median_ns)) => ResultView::Benchmarked {
                    captured: Seq::empty(),
                    exec_time: elapsed,
                    ns_iter_summ: summary,
                    mb_s: throughput(bytes, median_ns) as usize,
                },
                Err(p) => panic_outcome::<S>(*should_panic, elapsed, message_view(p)),
            },
    {
        match result {
            Ok((summary, median_ns)) => {
                let ns_iter: u64 = if median_ns >= 1 {
                    median_ns
                } else {
                    1
                };
                let mb_s = bytes * 1000 / ns_iter;
                TestResult::benchmarked(elapsed, summary, mb_s as usize)
            },
            Err(panic) => Self::from_panic(should_panic, elapsed, panic),
        }
    }

    fn from_panic(should_panic: &ShouldPanic, elapsed: Duration, panic: Option<String>) -> (r: Self)
        ensures
            r@ == panic_outcome::<S>(*should_panic, elapsed, message_view(panic)),
    {
        match should_panic {
            ShouldPanic::WithMessage(expected) => {
                let matched = match &panic {
                    Some(message) => str_contains(message.as_str(), expected.as_str()),
                    None => false,
                };
                if matched {
                    TestResult::passed(elapsed)
                } else {
                    let prefix: &str = "Test panicked with unexpected message: ";
                    let mut text = String::from_str(prefix);
                    match &panic {
                        Some(message) => text.append(message.as_str()),
                        None => {
                            proof {
                                assert(text@ =~= unexpected_message_prefix() + Seq::<char>::empty());
                            }
                        },
                    }
                    TestResult::failed(elapsed, Some(text))
                }
            },
            ShouldPanic::Yes => TestResult::passed(elapsed),
            ShouldPanic::No => TestResult::failed(elapsed, panic),
        }
    }
}

/// The counts of a finished run.
pub struct SuiteResult {
    pub passed: usize,
    pub failed: usize,
    pub ignored: usize,
    pub measured: usize,
    pub filtered_out: usize,
    pub exec_time: Duration,
}

/// How many of the results satisfy `pred`.
pub open spec fn count_results<S>(
    results: Seq<(RegisteredTest, TestResult<S>)>,
    pred: spec_fn(ResultView<S>) -> bool,
) -> nat
    decreases results.len(),
{
    if results.len() == 0 {
        0
    } else {
        count_results(results.drop_last(), pred) + if pred(results.last().1@) {
            1nat
        } else {
            0nat
        }
    }
}

/// Whether one of the results is a failure.
pub open spec fn any_failed<S>(results: Seq<(RegisteredTest, TestResult<S>)>) -> bool {
    exists|i: int| 0 <= i < results.len() && (#[trigger] results[i]).1@ is Failed
}

/// Counts the results that satisfy `pred`.
fn count_where<S>(
    results: &[(RegisteredTest, TestResult<S>)],
    kind: u8,
    Ghost(pred): Ghost<spec_fn(ResultView<S>) -> bool>,
) -> (r: usize)
    requires
        kind < 4,
        forall|v: ResultView<S>|
            #![trigger pred(v)]
            pred(v) == (if kind == 0 {
                v is Passed
            } else if kind == 1 {
                v is Benchmarked
            } else if kind == 2 {
                v is Failed
            } else {
                v is Ignored
            }),
    ensures
        r == count_results(results@, pred),
{
    let mut count: usize = 0;
    let n = results.len();
    for i in 0..n
        invariant
            n == results.len(),
            kind < 4,
            forall|v: ResultView<S>|
                #![trigger pred(v)]
                pred(v) == (if kind == 0 {
                    v is Passed
                } else if kind == 1 {
                    v is Benchmarked
                } else if kind == 2 {
                    v is Failed
                } else {
                    v is Ignored
                }),
            count == count_results(results@.take(i as int), pred),
            count <= i,
    {
        proof {
            assert(results@.take(i + 1).drop_last() =~= results@.take(i as int));
            assert(results@.take(i + 1).last() == results@[i as int]);
        }
        let result = &results[i].1;
        let hit = if kind == 0 {
            result.is_passed()
        } else if kind == 1 {
            result.is_benchmarked()
        } else if kind == 2 {
            result.is_failed()
        } else {
            result.is_ignored()
        };
        assert(hit == pred(result@));
        if hit {
            count = count + 1;
        }
    }
    proof {
        assert(results@.take(n as int) =~= results@);
    }
    count
}

impl SuiteResult {
    /// Counts the results by kind; the registered tests without a result were filtered out.
    pub fn from_test_results<S>(
        registered_tests: &[RegisteredTest],
        results: &[(RegisteredTest, TestResult<S>)],
        exec_time: Duration,
    ) -> (r: Self)
        requires
            results.len() <= registered_tests.len(),
        ensures
            r.passed == count_results(results@, |v: ResultView<S>| v is Passed),
            r.measured == count_results(results@, |v: ResultView<S>| v is Benchmarked),
            r.failed == count_results(results@, |v: ResultView<S>| v is Failed),
            r.ignored == count_results(results@, |v: ResultView<S>| v is Ignored),
            r.filtered_out == registered_tests.len() - results.len(),
            r.exec_time == exec_time,
    {
        let passed = count_where(results, 0, Ghost(|v: ResultView<S>| v is Passed));
        let measured = count_where(results, 1, Ghost(|v: ResultView<S>| v is Benchmarked));
        let failed = count_where(results, 2, Ghost(|v: ResultView<S>| v is Failed));
        let ignored = count_where(results, 3, Ghost(|v: ResultView<S>| v is Ignored));
        let filtered_out = registered_tests.len() - results.len();
        SuiteResult { passed, failed, ignored, measured, filtered_out, exec_time }
    }

    /// The process exit status of a run: 101 when a test failed, 0 otherwise.
    pub fn exit_code<S>(results: &[(RegisteredTest, TestResult<S>)]) -> (r: u8)
        ensures
            r == (if any_failed(results@) {
                101u8
            } else {
                0u8
            }),
    {
        let n = results.len();
        for i in 0..n
            invariant
                n == results.len(),
                forall|k: int| 0 <= k < i ==> !((#[trigger] results@[k]).1@ is Failed),
        {
            if results[i].1.is_failed() {
                return 101;
            }
        }
        0
    }
}

} // verus!
