//! Turning the output of test generators into registered tests.
use vstd::prelude::*;
use vstd::string::*;
use crate::text::path_sep;
use crate::registry::{
    CaptureControl, FlakinessControl, GeneratedTest, RegisteredTest, RegisteredTestGenerator,
    ShouldPanic, TestFunction, TestType, TestView, generated_views,
};
use crate::selection::test_views;

verus! {

/// The registered test made from a test that `generator` produced: named
/// `generator::test`, placed in the generator's crate and module, ignored when the generator
/// is, and otherwise with the default settings and no tags.
pub open spec fn generated_entry(
    generator: RegisteredTestGenerator,
    t: (Seq<char>, TestFunction, TestType),
) -> TestView {
    TestView {
        name: generator.name@ + path_sep() + t.0,
        crate_name: generator.crate_name@,
        mod_path: generator.mod_path@,
        is_ignored: generator.is_ignored,
        should_panic: ShouldPanic::No,
        run: t.1,
        test_type: t.2,
        timeout: None,
        flakiness_control: FlakinessControl::Off,
        capture_control: CaptureControl::Default,
        tags: Seq::empty(),
    }
}

/// The registered tests made from what one generator produced, in order.
pub open spec fn entries_of(
    generator: RegisteredTestGenerator,
    produced: Seq<(Seq<char>, TestFunction, TestType)>,
) -> Seq<TestView> {
    produced.map_values(|t: (Seq<char>, TestFunction, TestType)| generated_entry(generator, t))
}

/// The registered tests made from what each generator produced, generator by generator.
pub open spec fn entries_of_all(
    generators: Seq<RegisteredTestGenerator>,
    produced: Seq<Seq<(Seq<char>, TestFunction, TestType)>>,
) -> Seq<TestView>
    decreases generators.len(),
{
    if generators.len() == 0 || produced.len() == 0 {
        Seq::empty()
    } else {
        entries_of_all(generators.drop_last(), produced.drop_last()) + entries_of(
            generators.last(),
            produced.last(),
        )
    }
}

/// Appends to `target` a registered test for each test that `generator` produced.
pub fn add_generated_tests(
    target: &mut Vec<RegisteredTest>,
    generator: &RegisteredTestGenerator,
    generated: Vec<GeneratedTest>,
)
    ensures
        test_views(final(target)@) == test_views(old(target)@) + entries_of(
            *generator,
            generated_views(generated@),
        ),
{
    let sep: &str = "::";
    proof {
        reveal_strlit("::");
        assert(sep@ =~= path_sep());
    }
    let ghost start = test_views(target@);
    let ghost produced = generated_views(generated@);
    let n = generated.len();
    for i in 0..n
        invariant
            n == generated.len(),
            produced == generated_views(generated@),
            sep@ == path_sep(),
            test_views(target@) == start + entries_of(*generator, produced.take(i as int)),
    {
        let test = &generated[i];
        let mut name = generator.name.clone();
        name.append(sep);
        name.append(test.name.as_str());
        let entry = RegisteredTest {
            name,
            crate_name: generator.crate_name.clone(),
            mod_path: generator.mod_path.clone(),
            is_ignored: generator.is_ignored,
            should_panic: ShouldPanic::No,
            run: test.run,
            test_type: test.test_type,
            timeout: None,
            flakiness_control: FlakinessControl::Off,
            capture_control: CaptureControl::Default,
            tags: Vec::new(),
        };
        let ghost before = target@;
        target.push(entry);
        proof {
            assert(produced[i as int] == generated@[i as int]@);
            assert(entry@.tags =~= Seq::<Seq<char>>::empty());
            assert(entry@ =~= generated_entry(*generator, produced[i as int]));
            assert(produced.take(i + 1) =~= produced.take(i as int).push(produced[i as int]));
            assert(entries_of(*generator, produced.take(i + 1)) =~= entries_of(
                *generator,
                produced.take(i as int),
            ).push(entry@));
            assert(test_views(target@) =~= test_views(before).push(entry@));
        }
    }
    proof {
        assert(produced.take(n as int) =~= produced);
    }
}

/// Registers the tests that the generators produced, synchronous or not: `generated[i]`
/// holds what `generators[i]` produced.
pub fn register_generated_tests(
    generators: &[RegisteredTestGenerator],
    generated: Vec<Vec<GeneratedTest>>,
) -> (r: Vec<RegisteredTest>)
    requires
        generated.len() == generators.len(),
    ensures
        test_views(r@) == entries_of_all(
            generators@,
            generated@.map_values(|g: Vec<GeneratedTest>| generated_views(g@)),
        ),
{
    let ghost produced = generated@.map_values(|g: Vec<GeneratedTest>| generated_views(g@));
    let mut outputs = generated;
    let mut result: Vec<RegisteredTest> = Vec::new();
    let n = generators.len();
    for i in 0..n
        invariant
            n == generators.len(),
            outputs.len() == n,
            produced.len() == n,
            forall|k: int|
                i <= k < n ==> generated_views((#[trigger] outputs@[k])@) == produced[k],
            test_views(result@) == entries_of_all(generators@.take(i as int), produced.take(i as int)),
    {
        let mut tests: Vec<GeneratedTest> = Vec::new();
        std::mem::swap(&mut tests, &mut outputs[i]);
        proof {
            assert(generators@.take(i + 1).drop_last() =~= generators@.take(i as int));
            assert(produced.take(i + 1).drop_last() =~= produced.take(i as int));
            assert(generators@.take(i + 1).last() == generators@[i as int]);
            assert(produced.take(i + 1).last() == produced[i as int]);
        }
        add_generated_tests(&mut result, &generators[i], tests);
    }
    proof {
        assert(generators@.take(n as int) =~= generators@);
        assert(produced.take(n as int) =~= produced);
    }
    result
}

/// Registers the tests that synchronous generators produced: `generated[i]` holds what
/// `generators[i]` produced. Every generator must be synchronous.
pub fn generate_tests_sync(
    generators: &[RegisteredTestGenerator],
    generated: Vec<Vec<GeneratedTest>>,
) -> (r: Vec<RegisteredTest>)
    requires
        generated.len() == generators.len(),
        forall|i: int| 0 <= i < generators.len() ==> (#[trigger] generators@[i]).run is Sync,
    ensures
        test_views(r@) == entries_of_all(
            generators@,
            generated@.map_values(|g: Vec<GeneratedTest>| generated_views(g@)),
        ),
{
    register_generated_tests(generators, generated)
}

} // verus!
