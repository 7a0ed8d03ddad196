//! Which registered tests a run selects: name and tag filters, skips, kinds, and the tags that
//! suites give to their tests.
use vstd::prelude::*;
use vstd::string::*;
use std::time::Duration;
use crate::text::{chars_equal, chars_of, contains_seq, split_chars, split_seq, str_contains};
use crate::registry::{RegisteredTest, RegisteredTestSuiteProperty, ShouldPanic, TestType, TestView};

verus! {

/// Time limits past which a test is reported as slow (`warn`) or failed (`critical`).
#[derive(Debug, Clone, Copy, PartialEq, Eq)]
pub struct TimeThreshold {
    pub warn: Duration,
    pub critical: Duration,
}

/// The parts of the command line that decide which tests run and how they are timed.
#[derive(Debug, Clone)]
pub struct Arguments {
    /// Only run tests whose name matches this filter (or whose tags match a `:tag:` filter).
    pub filter: Option<String>,
    /// Skip the tests whose filterable name equals one of these.
    pub skip: Vec<String>,
    /// Match the filter against the whole name instead of a part of it.
    pub exact: bool,
    /// Run benchmarks.
    pub bench: bool,
    /// Run tests that are not benchmarks.
    pub test: bool,
    /// Leave out the tests that are expected to panic.
    pub exclude_should_panic: bool,
    /// Enforce the time thresholds.
    pub ensure_time: bool,
    /// Time thresholds of unit tests.
    pub unit_test_threshold: TimeThreshold,
    /// Time thresholds of integration tests.
    pub integration_test_threshold: TimeThreshold,
}

/// The abstract values of a list of registered tests.
pub open spec fn test_views(s: Seq<RegisteredTest>) -> Seq<TestView> {
    s.map_values(|t: RegisteredTest| t@)
}

/// The tests that the arguments select, in their order.
pub open spec fn selected(args: Arguments, tests: Seq<TestView>) -> Seq<TestView> {
    tests.filter(|t: TestView| args.selects(t))
}

/// The prefix that turns a filter into a tag expression: `:tag:`.
pub open spec fn tag_prefix() -> Seq<char> {
    seq![':', 't', 'a', 'g', ':']
}

pub open spec fn has_tag_prefix(filter: Seq<char>) -> bool {
    filter.len() >= 5 && filter.take(5) == tag_prefix()
}

/// A tag group `a&b&c` holds when the test has every tag of the group.
pub open spec fn tag_group_holds(tags: Seq<Seq<char>>, group: Seq<char>) -> bool {
    forall|j: int|
        0 <= j < split_seq(group, '&').len() ==> tags.contains(#[trigger] split_seq(group, '&')[j])
}

/// A tag expression `g1|g2|...` holds when one of its groups holds.
pub open spec fn tag_expr_holds(tags: Seq<Seq<char>>, expr: Seq<char>) -> bool {
    exists|i: int|
        0 <= i < split_seq(expr, '|').len() && tag_group_holds(
            tags,
            #[trigger] split_seq(expr, '|')[i],
        )
}

/// Whether a test matches a filter: a `:tag:` filter is a tag expression (an empty one selects
/// the tests without tags); any other filter is compared with the filterable name, as a whole
/// when `exact` and as a part of it otherwise.
pub open spec fn matches_filter(t: TestView, filter: Seq<char>, exact: bool) -> bool {
    if has_tag_prefix(filter) {
        let list = filter.skip(5);
        if list.len() == 0 {
            t.tags.len() == 0
        } else {
            tag_expr_holds(t.tags, list)
        }
    } else if exact {
        t.filterable_name() == filter
    } else {
        contains_seq(t.filterable_name(), filter)
    }
}

impl Arguments {
    /// Whether these arguments select the test.
    pub open spec fn selects(self, t: TestView) -> bool {
        &&& forall|k: int|
            0 <= k < self.skip@.len() ==> t.filterable_name() != (#[trigger] self.skip@[k])@
        &&& match self.filter {
            Some(f) => matches_filter(t, f@, self.exact),
            None => true,
        }
        &&& (self.bench && t.run.spec_is_bench()) || (self.test && !t.run.spec_is_bench()) || (
        !self.bench && !self.test)
        &&& !self.exclude_should_panic || t.should_panic == ShouldPanic::No
    }

    pub fn unit_test_threshold(&self) -> (r: TimeThreshold)
        ensures
            r == self.unit_test_threshold,
    {
        self.unit_test_threshold
    }

    pub fn integration_test_threshold(&self) -> (r: TimeThreshold)
        ensures
            r == self.integration_test_threshold,
    {
        self.integration_test_threshold
    }
}

/// Whether one of `tags` holds the characters of `x`.
fn tags_contain(tags: &Vec<Vec<char>>, x: &Vec<char>) -> (r: bool)
    ensures
        r == (exists|i: int| 0 <= i < tags.len() && (#[trigger] tags[i])@ == x@),
{
    let n = tags.len();
    for i in 0..n
        invariant
            n == tags.len(),
            forall|k: int| 0 <= k < i ==> (#[trigger] tags[k])@ != x@,
    {
        if chars_equal(&tags[i], x) {
            return true;
        }
    }
    false
}

/// Whether `s` starts with `:tag:`.
fn starts_with_tag_prefix(s: &Vec<char>) -> (r: bool)
    ensures
        r == has_tag_prefix(s@),
{
    if s.len() < 5 {
        return false;
    }
    let r = s[0] == ':' && s[1] == 't' && s[2] == 'a' && s[3] == 'g' && s[4] == ':';
    proof {
        if r {
            assert(s@.take(5) =~= tag_prefix());
        } else {
            if s@.take(5) == tag_prefix() {
                assert(s@.take(5)[0] == ':');
                assert(s@.take(5)[1] == 't');
                assert(s@.take(5)[2] == 'a');
                assert(s@.take(5)[3] == 'g');
                assert(s@.take(5)[4] == ':');
            }
        }
    }
    r
}

/// The characters of `s` from position `from` on.
fn chars_from(s: &Vec<char>, from: usize) -> (r: Vec<char>)
    requires
        from <= s.len(),
    ensures
        r@ == s@.skip(from as int),
{
    let mut r: Vec<char> = Vec::new();
    let n = s.len();
    for i in from..n
        invariant
            n == s.len(),
            from <= i <= n,
            r@ == s@.subrange(from as int, i as int),
    {
        r.push(s[i]);
        proof {
            assert(s@.subrange(from as int, i + 1) =~= s@.subrange(from as int, i as int).push(
                s@[i as int],
            ));
        }
    }
    proof {
        assert(s@.subrange(from as int, n as int) =~= s@.skip(from as int));
    }
    r
}

/// Whether a test with these tags satisfies the (non-empty) tag expression `expr`.
fn tag_expr_holds_exec(tags: &Vec<Vec<char>>, expr: &Vec<char>, Ghost(tv): Ghost<Seq<Seq<char>>>) -> (r: bool)
    requires
        tags.len() == tv.len(),
        forall|i: int| 0 <= i < tv.len() ==> (#[trigger] tags[i])@ == tv[i],
    ensures
        r == tag_expr_holds(tv, expr@),
{
    let groups = split_chars(expr, '|');
    let ng = groups.len();
    for gi in 0..ng
        invariant
            ng == groups.len(),
            ng == split_seq(expr@, '|').len(),
            forall|i: int| 0 <= i < ng ==> (#[trigger] groups[i])@ == split_seq(expr@, '|')[i],
            tags.len() == tv.len(),
            forall|i: int| 0 <= i < tv.len() ==> (#[trigger] tags[i])@ == tv[i],
            forall|i: int| 0 <= i < gi ==> !tag_group_holds(tv, #[trigger] split_seq(expr@, '|')[i]),
    {
        let ands = split_chars(&groups[gi], '&');
        let ghost group = split_seq(expr@, '|')[gi as int];
        let mut all = true;
        let na = ands.len();
        for ai in 0..na
            invariant
                na == ands.len(),
                na == split_seq(group, '&').len(),
                forall|i: int| 0 <= i < na ==> (#[trigger] ands[i])@ == split_seq(group, '&')[i],
                tags.len() == tv.len(),
                forall|i: int| 0 <= i < tv.len() ==> (#[trigger] tags[i])@ == tv[i],
                all == (forall|j: int| 0 <= j < ai ==> tv.contains(#[trigger] split_seq(group, '&')[j])),
        {
            let has = tags_contain(tags, &ands[ai]);
            proof {
                let x = split_seq(group, '&')[ai as int];
                if has {
                    let k = choose|k: int| 0 <= k < tags.len() && (#[trigger] tags[k])@ == ands[ai as int]@;
                    assert(tv[k] == x);
                } else {
                    if tv.contains(x) {
                        let k = choose|k: int| 0 <= k < tv.len() && tv[k] == x;
                        assert(tags[k]@ == ands[ai as int]@);
                    }
                }
            }
            all = all && has;
        }
        if all {
            assert(tag_group_holds(tv, split_seq(expr@, '|')[gi as int]));
            return true;
        }
    }
    false
}

/// Whether the test matches the filter (see `matches_filter`).
pub fn filter_test(test: &RegisteredTest, filter: &str, exact: bool) -> (r: bool)
    ensures
        r == matches_filter(test@, filter@, exact),
{
    let fchars = chars_of(filter);
    if starts_with_tag_prefix(&fchars) {
        let list = chars_from(&fchars, 5);
        if list.len() == 0 {
            test.tags.len() == 0
        } else {
            let mut tag_chars: Vec<Vec<char>> = Vec::new();
            let nt = test.tags.len();
            for i in 0..nt
                invariant
                    nt == test.tags.len(),
                    tag_chars.len() == i,
                    forall|k: int| 0 <= k < i ==> (#[trigger] tag_chars[k])@ == test.tags@[k]@,
            {
                tag_chars.push(chars_of(test.tags[i].as_str()));
            }
            tag_expr_holds_exec(&tag_chars, &list, Ghost(test@.tags))
        }
    } else if exact {
        let name = test.filterable_name();
        name == String::from_str(filter)
    } else {
        let name = test.filterable_name();
        str_contains(name.as_str(), filter)
    }
}

/// The `(suite, tag)` pairs of the tag properties, in order, where `suite` is the suite's
/// `crate::module::name`.
pub open spec fn tag_entries(props: Seq<RegisteredTestSuiteProperty>) -> Seq<(Seq<char>, Seq<char>)>
    decreases props.len(),
{
    if props.len() == 0 {
        Seq::empty()
    } else {
        let prev = tag_entries(props.drop_last());
        if props.last() is Tag {
            prev.push((props.last().spec_crate_and_module(), props.last()->tag@))
        } else {
            prev
        }
    }
}

/// The tags of the entries whose suite is `cm`, in order.
pub open spec fn matching_tags(entries: Seq<(Seq<char>, Seq<char>)>, cm: Seq<char>) -> Seq<Seq<char>>
    decreases entries.len(),
{
    if entries.len() == 0 {
        Seq::empty()
    } else {
        let prev = matching_tags(entries.drop_last(), cm);
        if entries.last().0 == cm {
            prev.push(entries.last().1)
        } else {
            prev
        }
    }
}

/// The test with the tags that the suite properties give it appended to its own tags.
pub open spec fn with_suite_tags(t: TestView, props: Seq<RegisteredTestSuiteProperty>) -> TestView {
    t.with_tags(t.tags + matching_tags(tag_entries(props), t.crate_and_module()))
}

/// The `(suite, tag)` pairs of the tag properties, as strings.
fn collect_tag_entries(props: &[RegisteredTestSuiteProperty]) -> (r: Vec<(String, String)>)
    ensures
        r@.map_values(|e: (String, String)| (e.0@, e.1@)) == tag_entries(props@),
{
    let mut r: Vec<(String, String)> = Vec::new();
    let n = props.len();
    for i in 0..n
        invariant
            n == props.len(),
            r@.map_values(|e: (String, String)| (e.0@, e.1@)) == tag_entries(props@.take(i as int)),
    {
        proof {
            assert(props@.take(i + 1).drop_last() =~= props@.take(i as int));
            assert(props@.take(i + 1).last() == props@[i as int]);
        }
        let ghost before = r@;
        match &props[i] {
            RegisteredTestSuiteProperty::Tag { tag, .. } => {
                let prefix = props[i].crate_and_module();
                r.push((prefix, tag.clone()));
                proof {
                    assert(r@.map_values(|e: (String, String)| (e.0@, e.1@)) =~= before.map_values(
                        |e: (String, String)| (e.0@, e.1@),
                    ).push((props@[i as int].spec_crate_and_module(), props@[i as int]->tag@)));
                }
            },
            _ => {},
        }
    }
    proof {
        assert(props@.take(n as int) =~= props@);
    }
    r
}

/// Each test with the tags of the suite properties of its module appended, in the order of
/// the properties; a property applies to the tests whose `crate::module` equals the
/// property's `crate::module::name`.
pub fn apply_suite_tags(tests: &[RegisteredTest], props: &[RegisteredTestSuiteProperty]) -> (r: Vec<RegisteredTest>)
    ensures
        r.len() == tests.len(),
        forall|i: int| 0 <= i < tests.len() ==> (#[trigger] r@[i])@ == with_suite_tags(tests@[i]@, props@),
{
    let entries = collect_tag_entries(props);
    let ghost ev = entries@.map_values(|e: (String, String)| (e.0@, e.1@));
    let mut result: Vec<RegisteredTest> = Vec::new();
    let n = tests.len();
    for i in 0..n
        invariant
            n == tests.len(),
            ev == entries@.map_values(|e: (String, String)| (e.0@, e.1@)),
            ev == tag_entries(props@),
            result.len() == i,
            forall|k: int| 0 <= k < i ==> (#[trigger] result@[k])@ == with_suite_tags(tests@[k]@, props@),
    {
        let mut test = tests[i].duplicate();
        let cm = test.crate_and_module();
        let ghost orig = tests@[i as int]@;
        let ne = entries.len();
        for j in 0..ne
            invariant
                ne == entries.len(),
                ev == entries@.map_values(|e: (String, String)| (e.0@, e.1@)),
                cm@ == orig.crate_and_module(),
                test@ == orig.with_tags(orig.tags + matching_tags(ev.take(j as int), orig.crate_and_module())),
        {
            proof {
                assert(ev.take(j + 1).drop_last() =~= ev.take(j as int));
                assert(ev.take(j + 1).last() == ev[j as int]);
            }
            let ghost before = test@;
            if entries[j].0 == cm {
                test.tags.push(entries[j].1.clone());
                proof {
                    assert(test@.tags =~= before.tags.push(entries@[j as int].1@));
                }
            }
            proof {
                let mt = matching_tags(ev.take(j + 1), orig.crate_and_module());
                assert(orig.tags + mt =~= if ev[j as int].0 == orig.crate_and_module() {
                    (orig.tags + matching_tags(ev.take(j as int), orig.crate_and_module())).push(ev[j as int].1)
                } else {
                    orig.tags + matching_tags(ev.take(j as int), orig.crate_and_module())
                });
            }
        }
        proof {
            assert(ev.take(ne as int) =~= ev);
        }
        result.push(test);
    }
    result
}

/// The registered tests that the arguments select, in their order.
pub fn filter_registered_tests(args: &Arguments, registered_tests: &[RegisteredTest]) -> (r: Vec<RegisteredTest>)
    ensures
        test_views(r@) == selected(*args, test_views(registered_tests@)),
{
    let ghost pred = |t: TestView| args.selects(t);
    let ghost all = test_views(registered_tests@);
    let mut result: Vec<RegisteredTest> = Vec::new();
    let n = registered_tests.len();
    for i in 0..n
        invariant
            n == registered_tests.len(),
            all == test_views(registered_tests@),
            pred == (|t: TestView| args.selects(t)),
            test_views(result@) == all.take(i as int).filter(pred),
    {
        let t = &registered_tests[i];
        let name = t.filterable_name();
        let mut keep = true;
        let ns = args.skip.len();
        for k in 0..ns
            invariant
                ns == args.skip.len(),
                name@ == t@.filterable_name(),
                keep == (forall|q: int| 0 <= q < k ==> name@ != (#[trigger] args.skip@[q])@),
        {
            if name == args.skip[k] {
                keep = false;
            }
        }
        if keep {
            match &args.filter {
                Some(f) => {
                    keep = filter_test(t, f.as_str(), args.exact);
                },
                None => {},
            }
        }
        if keep {
            let is_bench = t.run.is_bench();
            keep = (args.bench && is_bench) || (args.test && !is_bench) || (!args.bench && !args.test);
        }
        if keep && args.exclude_should_panic {
            keep = match &t.should_panic {
                ShouldPanic::No => true,
                _ => false,
            };
        }
        proof {
            reveal_with_fuel(Seq::filter, 1);
            assert(all.take(i + 1).drop_last() =~= all.take(i as int));
            assert(all.take(i + 1).last() == t@);
            assert(keep == args.selects(t@));
        }
        let ghost before = result@;
        if keep {
            result.push(t.duplicate());
            proof {
                assert(test_views(result@) =~= test_views(before).push(t@));
            }
        }
    }
    proof {
        assert(all.take(n as int) =~= all);
    }
    result
}

/// The time thresholds to enforce for the test, when the arguments ask for them.
pub fn get_ensure_time(args: &Arguments, test: &RegisteredTest) -> (r: Option<TimeThreshold>)
    ensures
        r == (if args.ensure_time {
            Some(match test.test_type {
                TestType::UnitTest => args.unit_test_threshold,
                TestType::IntegrationTest => args.integration_test_threshold,
            })
        } else {
            None
        }),
{
    if args.ensure_time {
        match test.test_type {
            TestType::UnitTest => Some(args.unit_test_threshold()),
            TestType::IntegrationTest => Some(args.integration_test_threshold()),
        }
    } else {
        None
    }
}

} // verus!
