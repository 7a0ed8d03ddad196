//! Properties that hold across the library's functions.
use vstd::prelude::*;
use crate::text::{
    lemma_split_append_piece, join_nonempty, join_path, lemma_split_without_sep, nonempty_parts, occurs_at, path_sep,
    split_seq,
};
use crate::registry::{
    RegisteredTest, RegisteredTestGenerator, RegisteredTestSuiteProperty, ShouldPanic, TestFunction,
    TestType, TestView,
};
use crate::selection::{
    has_tag_prefix, matches_filter, matching_tags, selected, tag_entries, tag_expr_holds,
    tag_group_holds, tag_prefix, with_suite_tags, Arguments,
};
use crate::generation::entries_of;
use crate::outcome::{any_failed, count_results, CapturedOutput, ResultView, TestResult};

verus! {

proof fn lemma_nonempty_parts2(a: Seq<char>, b: Seq<char>)
    ensures
        nonempty_parts(seq![a, b]) == if a.len() > 0 && b.len() > 0 {
            seq![a, b]
        } else if a.len() > 0 {
            seq![a]
        } else if b.len() > 0 {
            seq![b]
        } else {
            Seq::<Seq<char>>::empty()
        },
{
    reveal_with_fuel(Seq::filter, 3);
    assert(seq![a, b].drop_last() =~= seq![a]);
    assert(seq![a].drop_last() =~= Seq::<Seq<char>>::empty());
    assert(Seq::<Seq<char>>::empty().push(a) =~= seq![a]);
    assert(Seq::<Seq<char>>::empty().push(b) =~= seq![b]);
    assert(seq![a].push(b) =~= seq![a, b]);
}

proof fn lemma_nonempty_parts3(a: Seq<char>, b: Seq<char>, c: Seq<char>)
    ensures
        nonempty_parts(seq![a, b, c]) == if c.len() > 0 {
            nonempty_parts(seq![a, b]).push(c)
        } else {
            nonempty_parts(seq![a, b])
        },
{
    reveal_with_fuel(Seq::filter, 2);
    assert(seq![a, b, c].drop_last() =~= seq![a, b]);
}

proof fn lemma_join_two(a: Seq<char>, b: Seq<char>)
    ensures
        join_path(seq![a, b]) == a + path_sep() + b,
{
    assert(seq![a, b].drop_last() =~= seq![a]);
    assert(join_path(seq![a]) == a);
    assert(seq![a, b].last() == b);
}

/// The fully qualified name of a test is its `crate::module` joined with its name.
pub proof fn lemma_fully_qualified_extends_crate_and_module(t: TestView)
    ensures
        t.fully_qualified_name() == join_nonempty(seq![t.crate_and_module(), t.name]),
{
    let c = t.crate_name;
    let m = t.mod_path;
    let n = t.name;
    lemma_nonempty_parts2(c, m);
    lemma_nonempty_parts3(c, m, n);
    let cm = t.crate_and_module();
    lemma_nonempty_parts2(cm, n);
    if c.len() > 0 && m.len() > 0 {
        lemma_join_two(c, m);
        assert(cm.len() > 0);
        if n.len() > 0 {
            assert(seq![c, m].push(n) =~= seq![c, m, n]);
            assert(seq![c, m, n].drop_last() =~= seq![c, m]);
            lemma_join_two(cm, n);
        }
    } else if c.len() > 0 || m.len() > 0 {
        let x = if c.len() > 0 { c } else { m };
        assert(cm == x);
        if n.len() > 0 {
            assert(seq![x].push(n) =~= seq![x, n]);
        }
    } else {
        assert(cm.len() == 0);
        if n.len() > 0 {
            assert(Seq::<Seq<char>>::empty().push(n) =~= seq![n]);
        }
    }
}

/// A test with a name is fully qualified by its crate followed by its filterable name.
pub proof fn lemma_fully_qualified_extends_filterable_name(t: TestView)
    requires
        t.name.len() > 0,
    ensures
        t.fully_qualified_name() == join_nonempty(seq![t.crate_name, t.filterable_name()]),
{
    let c = t.crate_name;
    let m = t.mod_path;
    let n = t.name;
    let f = t.filterable_name();
    lemma_nonempty_parts2(c, m);
    lemma_nonempty_parts3(c, m, n);
    lemma_nonempty_parts2(c, f);
    assert(f.len() > 0);
    if c.len() > 0 && m.len() > 0 {
        assert(seq![c, m].push(n) =~= seq![c, m, n]);
        assert(seq![c, m, n].drop_last() =~= seq![c, m]);
        lemma_join_two(c, m);
        lemma_join_two(c, f);
        assert(c + path_sep() + m + path_sep() + n =~= c + path_sep() + (m + path_sep() + n));
    } else if c.len() > 0 {
        assert(seq![c].push(n) =~= seq![c, n]);
        lemma_join_two(c, n);
        lemma_join_two(c, f);
    } else if m.len() > 0 {
        assert(seq![m].push(n) =~= seq![m, n]);
        lemma_join_two(m, n);
    } else {
        assert(Seq::<Seq<char>>::empty().push(n) =~= seq![n]);
    }
}

/// A filter that matches a test's whole name also matches it as a part of the name.
pub proof fn lemma_exact_match_implies_partial_match(t: TestView, filter: Seq<char>)
    requires
        matches_filter(t, filter, true),
    ensures
        matches_filter(t, filter, false),
{
    if !has_tag_prefix(filter) {
        let name = t.filterable_name();
        assert(name.subrange(0, filter.len() as int) =~= filter);
        assert(occurs_at(name, filter, 0));
    }
}

/// The empty name filter matches every test.
pub proof fn lemma_empty_filter_matches_all(t: TestView, exact: bool)
    requires
        !exact || t.filterable_name().len() == 0,
    ensures
        matches_filter(t, Seq::empty(), exact),
{
    if !exact {
        let name = t.filterable_name();
        assert(name.subrange(0, 0) =~= Seq::<char>::empty());
        assert(occurs_at(name, Seq::empty(), 0));
    } else {
        assert(t.filterable_name() =~= Seq::<char>::empty());
    }
}

/// The filter `:tag:` selects exactly the tests without tags.
pub proof fn lemma_empty_tag_filter(t: TestView, exact: bool)
    ensures
        matches_filter(t, tag_prefix(), exact) == (t.tags.len() == 0),
{
    assert(tag_prefix().take(5) =~= tag_prefix());
    assert(tag_prefix().skip(5) =~= Seq::<char>::empty());
}

/// The filter `:tag:T`, for a tag `T` without `|` or `&`, selects exactly the tests that have
/// the tag `T`.
pub proof fn lemma_single_tag_filter(t: TestView, tag: Seq<char>, exact: bool)
    requires
        tag.len() > 0,
        !tag.contains('|'),
        !tag.contains('&'),
    ensures
        matches_filter(t, tag_prefix() + tag, exact) == t.tags.contains(tag),
{
    let f = tag_prefix() + tag;
    assert(f.take(5) =~= tag_prefix());
    assert(f.skip(5) =~= tag);
    lemma_split_without_sep(tag, '|');
    lemma_split_without_sep(tag, '&');
    assert(split_seq(tag, '|')[0] == tag);
    assert(split_seq(tag, '&')[0] == tag);
    if t.tags.contains(tag) {
        assert(tag_group_holds(t.tags, tag));
        assert(tag_expr_holds(t.tags, tag));
    }
    if tag_expr_holds(t.tags, tag) {
        let i = choose|i: int|
            0 <= i < split_seq(tag, '|').len() && tag_group_holds(
                t.tags,
                #[trigger] split_seq(tag, '|')[i],
            );
        assert(i == 0);
        assert(t.tags.contains(split_seq(tag, '&')[0]));
    }
}

proof fn lemma_filter_twice<A>(s: Seq<A>, p: spec_fn(A) -> bool)
    ensures
        s.filter(p).filter(p) == s.filter(p),
    decreases s.len(),
{
    reveal_with_fuel(Seq::filter, 1);
    if s.len() > 0 {
        lemma_filter_twice(s.drop_last(), p);
        let sub = s.drop_last().filter(p);
        if p(s.last()) {
            assert(sub.push(s.last()).drop_last() =~= sub);
            assert(sub.push(s.last()).last() == s.last());
        }
    }
}

proof fn lemma_filter_all<A>(s: Seq<A>, p: spec_fn(A) -> bool)
    requires
        forall|i: int| 0 <= i < s.len() ==> p(#[trigger] s[i]),
    ensures
        s.filter(p) == s,
    decreases s.len(),
{
    reveal_with_fuel(Seq::filter, 1);
    if s.len() > 0 {
        assert(forall|i: int| 0 <= i < s.drop_last().len() ==> s.drop_last()[i] == s[i]);
        lemma_filter_all(s.drop_last(), p);
        assert(p(s[s.len() - 1]));
        assert(s.drop_last().push(s.last()) =~= s);
    }
}

/// Selecting again with the same arguments selects the same tests.
pub proof fn lemma_selection_idempotent(args: Arguments, tests: Seq<TestView>)
    ensures
        selected(args, tests).filter(|t: TestView| args.selects(t))
            == selected(args, tests),
{
    lemma_filter_twice(tests, |t: TestView| args.selects(t));
}

/// Every selected test satisfies the arguments, comes from the registered tests, and no more
/// tests are selected than registered.
pub proof fn lemma_selection_sound(args: Arguments, tests: Seq<TestView>)
    ensures
        forall|i: int|
            0 <= i < selected(args, tests).len() ==> args.selects(
                #[trigger] selected(args, tests)[i],
            ),
        forall|i: int|
            0 <= i < tests.len() && args.selects(#[trigger] tests[i]) ==> selected(args, tests).contains(tests[i]),
        selected(args, tests).len() <= tests.len(),
{
    broadcast use vstd::seq_lib::group_filter_ensures;

}

/// Without a filter, skips, kinds, or the exclusion of tests expected to panic, every test
/// is selected.
pub proof fn lemma_default_arguments_select_all(args: Arguments, tests: Seq<TestView>)
    requires
        args.filter is None,
        args.skip@.len() == 0,
        !args.bench,
        !args.test,
        !args.exclude_should_panic,
    ensures
        selected(args, tests) == tests,
{
    lemma_filter_all(tests, |t: TestView| args.selects(t));
}

proof fn lemma_no_tag_entries(props: Seq<RegisteredTestSuiteProperty>)
    requires
        forall|i: int| 0 <= i < props.len() ==> !((#[trigger] props[i]) is Tag),
    ensures
        tag_entries(props) == Seq::<(Seq<char>, Seq<char>)>::empty(),
    decreases props.len(),
{
    if props.len() > 0 {
        assert(forall|i: int| 0 <= i < props.drop_last().len() ==> props.drop_last()[i] == props[i]);
        lemma_no_tag_entries(props.drop_last());
        assert(!(props[props.len() - 1] is Tag));
    }
}

/// Suite properties that are not tags leave every test as it is.
pub proof fn lemma_suite_tags_without_tag_properties(t: TestView, props: Seq<RegisteredTestSuiteProperty>)
    requires
        forall|i: int| 0 <= i < props.len() ==> !((#[trigger] props[i]) is Tag),
    ensures
        with_suite_tags(t, props) == t,
{
    lemma_no_tag_entries(props);
    assert(t.tags + Seq::<Seq<char>>::empty() =~= t.tags);
    assert(with_suite_tags(t, props) =~= t);
}

/// Suite tags only add to a test's tags: the test keeps its own tags, first, and everything
/// else.
pub proof fn lemma_suite_tags_only_extend(t: TestView, props: Seq<RegisteredTestSuiteProperty>)
    ensures
        with_suite_tags(t, props).tags.take(t.tags.len() as int) == t.tags,
        with_suite_tags(t, props).with_tags(t.tags) == t,
{
    assert(with_suite_tags(t, props).tags.take(t.tags.len() as int) =~= t.tags);
    assert(with_suite_tags(t, props).with_tags(t.tags) =~= t);
}

/// Every result is of exactly one kind, so the four counts add up to the number of results.
pub proof fn lemma_counts_cover_results<S>(results: Seq<(RegisteredTest, TestResult<S>)>)
    ensures
        count_results(results, |v: ResultView<S>| v is Passed) + count_results(
            results,
            |v: ResultView<S>| v is Benchmarked,
        ) + count_results(results, |v: ResultView<S>| v is Failed) + count_results(
            results,
            |v: ResultView<S>| v is Ignored,
        ) == results.len(),
    decreases results.len(),
{
    if results.len() > 0 {
        lemma_counts_cover_results(results.drop_last());
    }
}

/// The run exits with a failure status exactly when the summary counts a failed test.
pub proof fn lemma_exit_code_matches_failed_count<S>(results: Seq<(RegisteredTest, TestResult<S>)>)
    ensures
        (count_results(results, |v: ResultView<S>| v is Failed) > 0) == any_failed(results),
    decreases results.len(),
{
    if results.len() > 0 {
        let prev = results.drop_last();
        lemma_exit_code_matches_failed_count(prev);
        if any_failed(prev) {
            let k = choose|k: int| 0 <= k < prev.len() && (#[trigger] prev[k]).1@ is Failed;
            assert(results[k] == prev[k]);
        }
        if any_failed(results) {
            let k = choose|k: int| 0 <= k < results.len() && (#[trigger] results[k]).1@ is Failed;
            if k < prev.len() {
                assert(prev[k] == results[k]);
            }
        }
        if results.last().1@ is Failed {
            assert(results[results.len() - 1].1@ is Failed);
        }
    }
}

/// Replacing the captured lines of a result and reading them back gives the new lines; the
/// kind of result and everything else stay as they were.
pub proof fn lemma_captured_read_after_write<S>(v: ResultView<S>, c: Seq<CapturedOutput>)
    ensures
        v.with_captured(c).captured() == c,
        v.with_captured(c).with_captured(v.captured()) == v,
        (v.with_captured(c) is Passed) == (v is Passed),
        (v.with_captured(c) is Benchmarked) == (v is Benchmarked),
        (v.with_captured(c) is Failed) == (v is Failed),
        (v.with_captured(c) is Ignored) == (v is Ignored),
        v.with_captured(c).failure_message() == v.failure_message(),
{
}


proof fn lemma_matching_tags_contains(
    props: Seq<RegisteredTestSuiteProperty>,
    k: int,
    cm: Seq<char>,
)
    requires
        0 <= k < props.len(),
        props[k] is Tag,
        props[k].spec_crate_and_module() == cm,
    ensures
        matching_tags(tag_entries(props), cm).contains(props[k]->tag@),
    decreases props.len(),
{
    let prev = tag_entries(props.drop_last());
    if k == props.len() - 1 {
        let e = (cm, props[k]->tag@);
        assert(tag_entries(props) == prev.push(e));
        assert(prev.push(e).drop_last() =~= prev);
        let m = matching_tags(prev.push(e), cm);
        assert(m == matching_tags(prev, cm).push(props[k]->tag@));
        assert(m[m.len() - 1] == props[k]->tag@);
    } else {
        assert(props.drop_last()[k] == props[k]);
        lemma_matching_tags_contains(props.drop_last(), k, cm);
        let mp = matching_tags(prev, cm);
        let x = props[k]->tag@;
        let j = choose|j: int| 0 <= j < mp.len() && mp[j] == x;
        if props.last() is Tag {
            let e = (props.last().spec_crate_and_module(), props.last()->tag@);
            assert(prev.push(e).drop_last() =~= prev);
            let m = matching_tags(prev.push(e), cm);
            assert(m[j] == x);
        }
    }
}

/// A tag that a suite property gives to a suite is seen by a `:tag:` filter on every test of
/// that suite once the suite tags are applied.
pub proof fn lemma_suite_tag_is_selectable(
    t: TestView,
    props: Seq<RegisteredTestSuiteProperty>,
    k: int,
    exact: bool,
)
    requires
        0 <= k < props.len(),
        props[k] is Tag,
        props[k].spec_crate_and_module() == t.crate_and_module(),
        props[k]->tag@.len() > 0,
        !props[k]->tag@.contains('|'),
        !props[k]->tag@.contains('&'),
    ensures
        matches_filter(with_suite_tags(t, props), tag_prefix() + props[k]->tag@, exact),
{
    let tag = props[k]->tag@;
    let cm = t.crate_and_module();
    lemma_matching_tags_contains(props, k, cm);
    let extra = matching_tags(tag_entries(props), cm);
    let all = t.tags + extra;
    let j = choose|j: int| 0 <= j < extra.len() && extra[j] == tag;
    assert(all[t.tags.len() + j] == tag);
    assert(all.contains(tag));
    lemma_single_tag_filter(with_suite_tags(t, props), tag, exact);
}

/// The tests made from a generator's output live in the generator's crate and module, and
/// their filterable names extend the generator's `module::generator` prefix.
pub proof fn lemma_generated_tests_in_generator_module(
    g: RegisteredTestGenerator,
    produced: Seq<(Seq<char>, TestFunction, TestType)>,
    i: int,
)
    requires
        0 <= i < produced.len(),
    ensures
        entries_of(g, produced)[i].crate_and_module() == join_nonempty(
            seq![g.crate_name@, g.mod_path@],
        ),
        entries_of(g, produced)[i].name.take(g.name@.len() as int) == g.name@,
        entries_of(g, produced)[i].crate_name == g.crate_name@,
        entries_of(g, produced)[i].mod_path == g.mod_path@,
        entries_of(g, produced)[i].is_ignored == g.is_ignored,
        entries_of(g, produced)[i].run == produced[i].1,
        entries_of(g, produced)[i].test_type == produced[i].2,
        entries_of(g, produced)[i].should_panic == ShouldPanic::No,
        entries_of(g, produced)[i].timeout is None,
        entries_of(g, produced)[i].tags.len() == 0,
        entries_of(g, produced).len() == produced.len(),
{
    let e = entries_of(g, produced)[i];
    assert(e.name.take(g.name@.len() as int) =~= g.name@);
}


/// The tests of a registration that held `start` after plain tests were added one by one with
/// `add_sync_test`, each addition given as `(name, test type, body)`: every addition appends
/// its entry, as `add_sync_test` states.
pub open spec fn after_sync_adds(
    start: Seq<(Seq<char>, TestFunction, TestType)>,
    adds: Seq<(Seq<char>, TestType, usize)>,
) -> Seq<(Seq<char>, TestFunction, TestType)>
    decreases adds.len(),
{
    if adds.len() == 0 {
        start
    } else {
        after_sync_adds(start, adds.drop_last()).push(
            (adds.last().0, TestFunction::Sync(adds.last().2), adds.last().1),
        )
    }
}

/// Adding plain tests one by one keeps them all, repeated names too, in the order they were
/// added, after what the registration held; from a new registration, `to_vec` gives exactly
/// the added names, bodies and test types in order.
pub proof fn lemma_sync_adds_keep_order(
    start: Seq<(Seq<char>, TestFunction, TestType)>,
    adds: Seq<(Seq<char>, TestType, usize)>,
)
    ensures
        after_sync_adds(start, adds).len() == start.len() + adds.len(),
        after_sync_adds(start, adds).take(start.len() as int) == start,
        forall|i: int|
            0 <= i < adds.len() ==> after_sync_adds(start, adds)[start.len() + i] == (
                (#[trigger] adds[i]).0,
                TestFunction::Sync(adds[i].2),
                adds[i].1,
            ),
    decreases adds.len(),
{
    if adds.len() > 0 {
        let prev = adds.drop_last();
        lemma_sync_adds_keep_order(start, prev);
        let r = after_sync_adds(start, adds);
        let p = after_sync_adds(start, prev);
        assert(r.take(start.len() as int) =~= p.take(start.len() as int));
        assert forall|i: int| 0 <= i < adds.len() implies r[start.len() + i] == (
            (#[trigger] adds[i]).0,
            TestFunction::Sync(adds[i].2),
            adds[i].1,
        ) by {
            if i < prev.len() {
                assert(prev[i] == adds[i]);
            }
        }
    }
}


/// The filter `:tag:a&b`, for tags `a` and `b` without `|` or `&`, selects exactly the tests
/// that have both tags.
pub proof fn lemma_tag_conjunction_filter(t: TestView, a: Seq<char>, b: Seq<char>, exact: bool)
    requires
        !a.contains('|'),
        !a.contains('&'),
        !b.contains('|'),
        !b.contains('&'),
    ensures
        matches_filter(t, tag_prefix() + a + seq!['&'] + b, exact) == (t.tags.contains(a)
            && t.tags.contains(b)),
{
    let expr = a + seq!['&'] + b;
    let f = tag_prefix() + expr;
    assert(tag_prefix() + a + seq!['&'] + b =~= f);
    assert(f.take(5) =~= tag_prefix());
    assert(f.skip(5) =~= expr);
    assert(expr[a.len() as int] == '&');
    assert(expr.len() > 0);
    assert(!expr.contains('|')) by {
        if expr.contains('|') {
            let k = choose|k: int| 0 <= k < expr.len() && expr[k] == '|';
            if k < a.len() {
                assert(a[k] == '|');
            } else if k > a.len() {
                assert(b[k - a.len() - 1] == '|');
            }
        }
    }
    lemma_split_without_sep(expr, '|');
    lemma_split_without_sep(a, '&');
    lemma_split_append_piece(a, b, '&');
    let parts = split_seq(expr, '&');
    assert(parts =~= seq![a, b]);
    assert(split_seq(expr, '|')[0] == expr);
    if t.tags.contains(a) && t.tags.contains(b) {
        assert forall|j: int| 0 <= j < parts.len() implies t.tags.contains(#[trigger] parts[j]) by {
            if j == 0 {
                assert(parts[j] == a);
            } else {
                assert(parts[j] == b);
            }
        }
        assert(tag_group_holds(t.tags, expr));
        assert(tag_expr_holds(t.tags, expr));
    }
    if tag_expr_holds(t.tags, expr) {
        let i = choose|i: int|
            0 <= i < split_seq(expr, '|').len() && tag_group_holds(
                t.tags,
                #[trigger] split_seq(expr, '|')[i],
            );
        assert(i == 0);
        assert(t.tags.contains(parts[0]));
        assert(t.tags.contains(parts[1]));
    }
}

/// When the run excludes tests expected to panic, no selected test is expected to panic, with
/// or without a message.
pub proof fn lemma_excluded_should_panic_not_selected(args: Arguments, tests: Seq<TestView>)
    requires
        args.exclude_should_panic,
    ensures
        forall|i: int|
            0 <= i < selected(args, tests).len() ==> (#[trigger] selected(args, tests)[i]).should_panic
                == ShouldPanic::No,
{
    lemma_selection_sound(args, tests);
}

proof fn lemma_matching_tags_none(entries: Seq<(Seq<char>, Seq<char>)>, cm: Seq<char>)
    requires
        forall|k: int| 0 <= k < entries.len() ==> (#[trigger] entries[k]).0 != cm,
    ensures
        matching_tags(entries, cm) == Seq::<Seq<char>>::empty(),
    decreases entries.len(),
{
    if entries.len() > 0 {
        let prev = entries.drop_last();
        assert(forall|k: int| 0 <= k < prev.len() ==> prev[k] == entries[k]);
        lemma_matching_tags_none(prev, cm);
        assert(entries[entries.len() - 1].0 != cm);
    }
}

/// Some tag property of `props` names the suite `cm` and gives the tag `tag`.
pub open spec fn suite_gives_tag(props: Seq<RegisteredTestSuiteProperty>, cm: Seq<char>, tag: Seq<char>) -> bool {
    exists|q: int|
        0 <= q < props.len() && (#[trigger] props[q]) is Tag && props[q].spec_crate_and_module() == cm
            && props[q]->tag@ == tag
}

/// Some entry of `entries` names the suite `cm` and gives the tag `tag`.
spec fn entry_gives_tag(entries: Seq<(Seq<char>, Seq<char>)>, cm: Seq<char>, tag: Seq<char>) -> bool {
    exists|k: int| 0 <= k < entries.len() && (#[trigger] entries[k]) == (cm, tag)
}

proof fn lemma_tag_entries_from_props(props: Seq<RegisteredTestSuiteProperty>)
    ensures
        forall|k: int|
            0 <= k < tag_entries(props).len() ==> suite_gives_tag(
                props,
                (#[trigger] tag_entries(props)[k]).0,
                tag_entries(props)[k].1,
            ),
    decreases props.len(),
{
    if props.len() > 0 {
        let dl = props.drop_last();
        lemma_tag_entries_from_props(dl);
        let prev = tag_entries(dl);
        let cur = tag_entries(props);
        if props.last() is Tag {
            assert(cur == prev.push((props.last().spec_crate_and_module(), props.last()->tag@)));
        } else {
            assert(cur == prev);
        }
        assert forall|k: int| 0 <= k < cur.len() implies suite_gives_tag(
            props,
            (#[trigger] tag_entries(props)[k]).0,
            tag_entries(props)[k].1,
        ) by {
            if k < prev.len() {
                assert(cur[k] == prev[k]);
                assert(suite_gives_tag(dl, prev[k].0, prev[k].1));
                let q = choose|q: int|
                    0 <= q < dl.len() && (#[trigger] dl[q]) is Tag && dl[q].spec_crate_and_module()
                        == prev[k].0 && dl[q]->tag@ == prev[k].1;
                assert(props[q] == dl[q]);
            } else {
                let q = props.len() - 1;
                assert(props[q] == props.last());
            }
        }
    }
}

/// A test gets no suite tag when no tag property's `crate::module::name` equals the test's
/// `crate::module`: its tags, and everything else, stay as they were.
pub proof fn lemma_suite_tags_need_exact_suite(t: TestView, props: Seq<RegisteredTestSuiteProperty>)
    requires
        forall|k: int|
            0 <= k < props.len() && (#[trigger] props[k]) is Tag ==> props[k].spec_crate_and_module()
                != t.crate_and_module(),
    ensures
        with_suite_tags(t, props) == t,
{
    let entries = tag_entries(props);
    lemma_tag_entries_from_props(props);
    assert forall|k: int| 0 <= k < entries.len() implies (#[trigger] entries[k]).0
        != t.crate_and_module() by {
        assert(suite_gives_tag(props, entries[k].0, entries[k].1));
    }
    lemma_matching_tags_none(entries, t.crate_and_module());
    assert(t.tags + Seq::<Seq<char>>::empty() =~= t.tags);
    assert(with_suite_tags(t, props) =~= t);
}

proof fn lemma_matching_tags_from_entries(entries: Seq<(Seq<char>, Seq<char>)>, cm: Seq<char>)
    ensures
        forall|j: int|
            0 <= j < matching_tags(entries, cm).len() ==> entry_gives_tag(
                entries,
                cm,
                #[trigger] matching_tags(entries, cm)[j],
            ),
    decreases entries.len(),
{
    if entries.len() > 0 {
        let dl = entries.drop_last();
        lemma_matching_tags_from_entries(dl, cm);
        let prev = matching_tags(dl, cm);
        let cur = matching_tags(entries, cm);
        if entries.last().0 == cm {
            assert(cur == prev.push(entries.last().1));
        } else {
            assert(cur == prev);
        }
        assert forall|j: int| 0 <= j < cur.len() implies entry_gives_tag(
            entries,
            cm,
            #[trigger] matching_tags(entries, cm)[j],
        ) by {
            if j < prev.len() {
                assert(cur[j] == prev[j]);
                assert(entry_gives_tag(dl, cm, prev[j]));
                let k = choose|k: int| 0 <= k < dl.len() && (#[trigger] dl[k]) == (cm, prev[j]);
                assert(entries[k] == dl[k]);
            } else {
                let k = entries.len() - 1;
                assert(entries[k] == entries.last());
                assert(entries[k] == (cm, cur[j]));
            }
        }
    }
}

/// Every tag that suite tagging adds to a test comes from a tag property whose
/// `crate::module::name` equals the test's `crate::module`.
pub proof fn lemma_suite_tags_come_from_the_suite(t: TestView, props: Seq<RegisteredTestSuiteProperty>)
    ensures
        forall|j: int|
            t.tags.len() <= j < with_suite_tags(t, props).tags.len() ==> suite_gives_tag(
                props,
                t.crate_and_module(),
                #[trigger] with_suite_tags(t, props).tags[j],
            ),
{
    let cm = t.crate_and_module();
    let entries = tag_entries(props);
    let added = matching_tags(entries, cm);
    lemma_matching_tags_from_entries(entries, cm);
    lemma_tag_entries_from_props(props);
    let all = with_suite_tags(t, props).tags;
    assert forall|j: int| t.tags.len() <= j < all.len() implies suite_gives_tag(
        props,
        cm,
        #[trigger] with_suite_tags(t, props).tags[j],
    ) by {
        let jj = j - t.tags.len();
        assert(all == t.tags + added);
        assert(all[j] == added[jj]);
        assert(entry_gives_tag(entries, cm, added[jj]));
        let k = choose|k: int| 0 <= k < entries.len() && (#[trigger] entries[k]) == (cm, added[jj]);
        assert(suite_gives_tag(props, entries[k].0, entries[k].1));
    }
}

} // verus!
