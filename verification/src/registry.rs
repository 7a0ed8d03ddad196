//! The registered items of a test suite: tests, dependencies, suite properties and generators,
//! with the names by which they are selected and grouped.
use vstd::prelude::*;
use vstd::string::*;
use std::time::Duration;
use crate::text::{join_nonempty, join_nonempty_strs, path_sep};

verus! {

/// The body of a test. Each variant holds the index of the closure in the caller's table of
/// bodies of that kind: plain tests, benchmarks, and their asynchronous forms.
#[derive(Clone, Copy, Debug, PartialEq, Eq, Structural)]
pub enum TestFunction {
    Sync(usize),
    SyncBench(usize),
    Async(usize),
    AsyncBench(usize),
}

impl TestFunction {
    pub open spec fn spec_is_bench(self) -> bool {
        self is SyncBench || self is AsyncBench
    }

    /// Whether the body is a benchmark.
    pub fn is_bench(&self) -> (r: bool)
        ensures
            r == self.spec_is_bench(),
    {
        match self {
            TestFunction::SyncBench(_) => true,
            TestFunction::AsyncBench(_) => true,
            _ => false,
        }
    }
}

/// Whether a test is expected to panic, and with what message.
#[derive(Debug, Clone, PartialEq, Eq)]
pub enum ShouldPanic {
    No,
    Yes,
    WithMessage(String),
}

impl ShouldPanic {
    /// A copy equal to `self`.
    pub fn duplicate(&self) -> (r: ShouldPanic)
        ensures
            r == *self,
    {
        match self {
            ShouldPanic::No => ShouldPanic::No,
            ShouldPanic::Yes => ShouldPanic::Yes,
            ShouldPanic::WithMessage(m) => ShouldPanic::WithMessage(m.clone()),
        }
    }
}

/// Whether a test lives next to the code (a unit test) or in a separate test target.
#[derive(Debug, Clone, Copy, PartialEq, Eq, Structural)]
pub enum TestType {
    UnitTest,
    IntegrationTest,
}

/// The source-path fragment that marks a unit test.
pub open spec fn unit_test_marker() -> Seq<char> {
    seq!['/', 's', 'r', 'c', '/']
}

impl TestType {
    /// A test defined in a file under a `src` directory is a unit test; any other is an
    /// integration test.
    pub fn from_path(path: &str) -> (r: TestType)
        ensures
            r == (if crate::text::contains_seq(path@, unit_test_marker()) {
                TestType::UnitTest
            } else {
                TestType::IntegrationTest
            }),
    {
        let marker: &str = "/src/";
        proof {
            reveal_strlit("/src/");
            assert(marker@ =~= unit_test_marker());
        }
        if crate::text::str_contains(path, marker) {
            TestType::UnitTest
        } else {
            TestType::IntegrationTest
        }
    }
}

/// How a test's flakiness is handled.
#[derive(Debug, Clone, Copy, PartialEq, Eq, Structural)]
pub enum FlakinessControl {
    Off,
    ProveNonFlaky(usize),
    RetryKnownFlaky(usize),
}

/// Whether a test's output is captured.
#[derive(Debug, Clone, Copy, PartialEq, Eq, Structural)]
pub enum CaptureControl {
    Default,
    AlwaysCapture,
    NeverCapture,
}

impl CaptureControl {
    pub open spec fn spec_requires_capturing(self, default: bool) -> bool {
        match self {
            CaptureControl::Default => default,
            CaptureControl::AlwaysCapture => true,
            CaptureControl::NeverCapture => false,
        }
    }

    /// Whether output must be captured, given the suite's default.
    pub fn requires_capturing(&self, default: bool) -> (r: bool)
        ensures
            r == self.spec_requires_capturing(default),
    {
        match self {
            CaptureControl::Default => default,
            CaptureControl::AlwaysCapture => true,
            CaptureControl::NeverCapture => false,
        }
    }
}

/// The character sequences of a list of strings.
pub open spec fn string_views(v: Seq<String>) -> Seq<Seq<char>> {
    v.map_values(|s: String| s@)
}

/// A test as registered in the suite.
#[derive(Clone, Debug)]
pub struct RegisteredTest {
    pub name: String,
    pub crate_name: String,
    pub mod_path: String,
    pub is_ignored: bool,
    pub should_panic: ShouldPanic,
    pub run: TestFunction,
    pub test_type: TestType,
    pub timeout: Option<Duration>,
    pub flakiness_control: FlakinessControl,
    pub capture_control: CaptureControl,
    pub tags: Vec<String>,
}

/// The abstract value of a registered test: its strings as character sequences.
#[verifier::ext_equal]
pub struct TestView {
    pub name: Seq<char>,
    pub crate_name: Seq<char>,
    pub mod_path: Seq<char>,
    pub is_ignored: bool,
    pub should_panic: ShouldPanic,
    pub run: TestFunction,
    pub test_type: TestType,
    pub timeout: Option<Duration>,
    pub flakiness_control: FlakinessControl,
    pub capture_control: CaptureControl,
    pub tags: Seq<Seq<char>>,
}

impl TestView {
    /// `module::name`, or the bare name for a test at the crate root.
    pub open spec fn filterable_name(self) -> Seq<char> {
        if self.mod_path.len() > 0 {
            self.mod_path + path_sep() + self.name
        } else {
            self.name
        }
    }

    /// `crate::module::name`, leaving out the empty parts.
    pub open spec fn fully_qualified_name(self) -> Seq<char> {
        join_nonempty(seq![self.crate_name, self.mod_path, self.name])
    }

    /// `crate::module`, leaving out the empty parts.
    pub open spec fn crate_and_module(self) -> Seq<char> {
        join_nonempty(seq![self.crate_name, self.mod_path])
    }

    /// The same test with other tags.
    pub open spec fn with_tags(self, tags: Seq<Seq<char>>) -> TestView {
        TestView { tags, ..self }
    }
}

impl View for RegisteredTest {
    type V = TestView;

    open spec fn view(&self) -> TestView {
        TestView {
            name: self.name@,
            crate_name: self.crate_name@,
            mod_path: self.mod_path@,
            is_ignored: self.is_ignored,
            should_panic: self.should_panic,
            run: self.run,
            test_type: self.test_type,
            timeout: self.timeout,
            flakiness_control: self.flakiness_control,
            capture_control: self.capture_control,
            tags: string_views(self.tags@),
        }
    }
}

/// A copy of a list of strings.
pub fn copy_strings(v: &Vec<String>) -> (r: Vec<String>)
    ensures
        r@ == v@,
{
    let mut r: Vec<String> = Vec::new();
    let n = v.len();
    for i in 0..n
        invariant
            n == v.len(),
            r@ == v@.take(i as int),
    {
        r.push(v[i].clone());
        proof {
            assert(v@.take(i + 1) =~= v@.take(i as int).push(v@[i as int]));
        }
    }
    proof {
        assert(v@.take(n as int) =~= v@);
    }
    r
}

impl RegisteredTest {
    /// A copy with the same abstract value.
    pub fn duplicate(&self) -> (r: RegisteredTest)
        ensures
            r@ == self@,
    {
        RegisteredTest {
            name: self.name.clone(),
            crate_name: self.crate_name.clone(),
            mod_path: self.mod_path.clone(),
            is_ignored: self.is_ignored,
            should_panic: self.should_panic.duplicate(),
            run: self.run,
            test_type: self.test_type,
            timeout: self.timeout,
            flakiness_control: self.flakiness_control,
            capture_control: self.capture_control,
            tags: copy_strings(&self.tags),
        }
    }

    /// The name that filters match: `module::name`, or the bare name at the crate root.
    pub fn filterable_name(&self) -> (r: String)
        ensures
            r@ == self@.filterable_name(),
    {
        if !self.mod_path.as_str().is_empty() {
            let sep: &str = "::";
            proof {
                reveal_strlit("::");
                assert(sep@ =~= path_sep());
            }
            let mut r = self.mod_path.clone();
            r.append(sep);
            r.append(self.name.as_str());
            r
        } else {
            self.name.clone()
        }
    }

    /// `crate::module::name`, leaving out the empty parts.
    pub fn fully_qualified_name(&self) -> (r: String)
        ensures
            r@ == self@.fully_qualified_name(),
    {
        let parts: Vec<&str> = vec![
            self.crate_name.as_str(),
            self.mod_path.as_str(),
            self.name.as_str(),
        ];
        proof {
            assert(parts@.map_values(|p: &str| p@) =~= seq![
                self.crate_name@,
                self.mod_path@,
                self.name@,
            ]);
        }
        join_nonempty_strs(&parts)
    }

    /// `crate::module`, leaving out the empty parts.
    pub fn crate_and_module(&self) -> (r: String)
        ensures
            r@ == self@.crate_and_module(),
    {
        let parts: Vec<&str> = vec![self.crate_name.as_str(), self.mod_path.as_str()];
        proof {
            assert(parts@.map_values(|p: &str| p@) =~= seq![self.crate_name@, self.mod_path@]);
        }
        join_nonempty_strs(&parts)
    }
}

/// How a dependency is built. Each variant holds the index of the constructor in the caller's
/// table of constructors of that kind.
#[derive(Clone, Copy, Debug, PartialEq, Eq, Structural)]
pub enum DependencyConstructor {
    Sync(usize),
    Async(usize),
}

/// A shared dependency that tests can ask for by name.
#[derive(Clone, Debug)]
pub struct RegisteredDependency {
    pub name: String,
    pub crate_name: String,
    pub mod_path: String,
    pub constructor: DependencyConstructor,
    pub dependencies: Vec<String>,
}

impl RegisteredDependency {
    /// `crate::module`, leaving out the empty parts.
    pub fn crate_and_module(&self) -> (r: String)
        ensures
            r@ == join_nonempty(seq![self.crate_name@, self.mod_path@]),
    {
        let parts: Vec<&str> = vec![self.crate_name.as_str(), self.mod_path.as_str()];
        proof {
            assert(parts@.map_values(|p: &str| p@) =~= seq![self.crate_name@, self.mod_path@]);
        }
        join_nonempty_strs(&parts)
    }
}

/// Two dependencies are the same dependency when their names are equal.
impl PartialEq for RegisteredDependency {
    fn eq(&self, other: &Self) -> (r: bool) {
        self.name == other.name
    }
}

impl vstd::std_specs::cmp::PartialEqSpecImpl for RegisteredDependency {
    open spec fn obeys_eq_spec() -> bool {
        true
    }

    open spec fn eq_spec(&self, other: &Self) -> bool {
        self.name@ == other.name@
    }
}

impl Eq for RegisteredDependency {
}

/// Hashes a dependency by its name alone, agreeing with its equality.
impl std::hash::Hash for RegisteredDependency {
    /// Feeds the name to the hasher with `String::hash`; nothing is claimed of the hasher's state.
    #[verifier::external_body]
    fn hash<H: std::hash::Hasher>(&self, state: &mut H) {
        self.name.hash(state);
    }
}

/// A property that a test suite (a module) declares for all its tests.
#[derive(Debug, Clone)]
pub enum RegisteredTestSuiteProperty {
    Sequential { name: String, crate_name: String, mod_path: String },
    Tag { name: String, crate_name: String, mod_path: String, tag: String },
}

impl RegisteredTestSuiteProperty {
    pub open spec fn spec_crate_name(&self) -> String {
        match self {
            RegisteredTestSuiteProperty::Sequential { crate_name, .. } => *crate_name,
            RegisteredTestSuiteProperty::Tag { crate_name, .. } => *crate_name,
        }
    }

    pub open spec fn spec_mod_path(&self) -> String {
        match self {
            RegisteredTestSuiteProperty::Sequential { mod_path, .. } => *mod_path,
            RegisteredTestSuiteProperty::Tag { mod_path, .. } => *mod_path,
        }
    }

    pub open spec fn spec_name(&self) -> String {
        match self {
            RegisteredTestSuiteProperty::Sequential { name, .. } => *name,
            RegisteredTestSuiteProperty::Tag { name, .. } => *name,
        }
    }

    /// `crate::module::name` of the suite, leaving out the empty parts.
    pub open spec fn spec_crate_and_module(&self) -> Seq<char> {
        join_nonempty(seq![self.spec_crate_name()@, self.spec_mod_path()@, self.spec_name()@])
    }

    pub fn crate_name(&self) -> (r: &String)
        ensures
            *r == self.spec_crate_name(),
    {
        match self {
            RegisteredTestSuiteProperty::Sequential { crate_name, .. } => crate_name,
            RegisteredTestSuiteProperty::Tag { crate_name, .. } => crate_name,
        }
    }

    pub fn mod_path(&self) -> (r: &String)
        ensures
            *r == self.spec_mod_path(),
    {
        match self {
            RegisteredTestSuiteProperty::Sequential { mod_path, .. } => mod_path,
            RegisteredTestSuiteProperty::Tag { mod_path, .. } => mod_path,
        }
    }

    pub fn name(&self) -> (r: &String)
        ensures
            *r == self.spec_name(),
    {
        match self {
            RegisteredTestSuiteProperty::Sequential { name, .. } => name,
            RegisteredTestSuiteProperty::Tag { name, .. } => name,
        }
    }

    /// `crate::module::name` of the suite, leaving out the empty parts.
    pub fn crate_and_module(&self) -> (r: String)
        ensures
            r@ == self.spec_crate_and_module(),
    {
        let parts: Vec<&str> = vec![
            self.crate_name().as_str(),
            self.mod_path().as_str(),
            self.name().as_str(),
        ];
        proof {
            assert(parts@.map_values(|p: &str| p@) =~= seq![
                self.spec_crate_name()@,
                self.spec_mod_path()@,
                self.spec_name()@,
            ]);
        }
        join_nonempty_strs(&parts)
    }
}

/// How a generator produces its tests. Each variant holds the index of the generator closure in
/// the caller's table of generators of that kind.
#[derive(Clone, Copy, Debug, PartialEq, Eq, Structural)]
pub enum TestGeneratorFunction {
    Sync(usize),
    Async(usize),
}

/// A test produced at run time by a generator.
#[derive(Clone, Debug)]
pub struct GeneratedTest {
    pub name: String,
    pub run: TestFunction,
    pub test_type: TestType,
}

impl View for GeneratedTest {
    type V = (Seq<char>, TestFunction, TestType);

    open spec fn view(&self) -> (Seq<char>, TestFunction, TestType) {
        (self.name@, self.run, self.test_type)
    }
}

/// The abstract values of a list of generated tests.
pub open spec fn generated_views(v: Seq<GeneratedTest>) -> Seq<(Seq<char>, TestFunction, TestType)> {
    v.map_values(|t: GeneratedTest| t@)
}

/// The tests that a generator adds, in the order they were added.
pub struct DynamicTestRegistration {
    tests: Vec<GeneratedTest>,
}

impl View for DynamicTestRegistration {
    type V = Seq<(Seq<char>, TestFunction, TestType)>;

    closed spec fn view(&self) -> Seq<(Seq<char>, TestFunction, TestType)> {
        generated_views(self.tests@)
    }
}

impl Default for DynamicTestRegistration {
    fn default() -> (r: Self)
        ensures
            r@ == Seq::<(Seq<char>, TestFunction, TestType)>::empty(),
    {
        Self::new()
    }
}

impl DynamicTestRegistration {
    /// An empty registration.
    pub fn new() -> (r: Self)
        ensures
            r@ == Seq::<(Seq<char>, TestFunction, TestType)>::empty(),
    {
        let r = Self { tests: Vec::new() };
        proof {
            assert(r@ =~= Seq::<(Seq<char>, TestFunction, TestType)>::empty());
        }
        r
    }

    /// The tests added so far, in order.
    pub fn to_vec(self) -> (r: Vec<GeneratedTest>)
        ensures
            generated_views(r@) == self@,
    {
        self.tests
    }

    /// Adds a plain test whose body is the closure at index `run` of the caller's table of
    /// plain test bodies.
    pub fn add_sync_test(&mut self, name: &str, test_type: TestType, run: usize)
        ensures
            final(self)@ == old(self)@.push((name@, TestFunction::Sync(run), test_type)),
    {
        let t = GeneratedTest {
            name: String::from_str(name),
            run: TestFunction::Sync(run),
            test_type,
        };
        self.tests.push(t);
        proof {
            assert(generated_views(self.tests@) =~= generated_views(old(self).tests@).push(
                (name@, TestFunction::Sync(run), test_type),
            ));
        }
    }

    /// Adds an asynchronous test whose body is the closure at index `run` of the caller's
    /// table of asynchronous test bodies.
    pub fn add_async_test(&mut self, name: &str, test_type: TestType, run: usize)
        ensures
            final(self)@ == old(self)@.push((name@, TestFunction::Async(run), test_type)),
    {
        let t = GeneratedTest {
            name: String::from_str(name),
            run: TestFunction::Async(run),
            test_type,
        };
        self.tests.push(t);
        proof {
            assert(generated_views(self.tests@) =~= generated_views(old(self).tests@).push(
                (name@, TestFunction::Async(run), test_type),
            ));
        }
    }
}

/// A registered generator of tests.
#[derive(Clone, Debug)]
pub struct RegisteredTestGenerator {
    pub name: String,
    pub crate_name: String,
    pub mod_path: String,
    pub run: TestGeneratorFunction,
    pub is_ignored: bool,
}

impl RegisteredTestGenerator {
    /// `crate::module`, leaving out the empty parts.
    pub fn crate_and_module(&self) -> (r: String)
        ensures
            r@ == join_nonempty(seq![self.crate_name@, self.mod_path@]),
    {
        let parts: Vec<&str> = vec![self.crate_name.as_str(), self.mod_path.as_str()];
        proof {
            assert(parts@.map_values(|p: &str| p@) =~= seq![self.crate_name@, self.mod_path@]);
        }
        join_nonempty_strs(&parts)
    }
}

} // verus!
