use test_r_core::generation::{add_generated_tests, generate_tests_sync, register_generated_tests};
use test_r_core::registry::{
    CaptureControl, FlakinessControl, GeneratedTest, RegisteredTest, RegisteredTestGenerator,
    RegisteredTestSuiteProperty, ShouldPanic, TestFunction, TestGeneratorFunction, TestType,
};
use test_r_core::selection::{
    apply_suite_tags, filter_registered_tests, filter_test, get_ensure_time, Arguments,
    TimeThreshold,
};
use std::time::Duration;

fn test_named(crate_name: &str, mod_path: &str, name: &str) -> RegisteredTest {
    RegisteredTest {
        name: name.to_string(),
        crate_name: crate_name.to_string(),
        mod_path: mod_path.to_string(),
        is_ignored: false,
        should_panic: ShouldPanic::No,
        run: TestFunction::Sync(0),
        test_type: TestType::UnitTest,
        timeout: None,
        flakiness_control: FlakinessControl::Off,
        capture_control: CaptureControl::Default,
        tags: Vec::new(),
    }
}

fn tagged(name: &str, tags: &[&str]) -> RegisteredTest {
    let mut t = test_named("c", "m", name);
    t.tags = tags.iter().map(|s| s.to_string()).collect();
    t
}

fn threshold(warn_ms: u64, critical_ms: u64) -> TimeThreshold {
    TimeThreshold {
        warn: Duration::from_millis(warn_ms),
        critical: Duration::from_millis(critical_ms),
    }
}

fn default_args() -> Arguments {
    Arguments {
        filter: None,
        skip: Vec::new(),
        exact: false,
        bench: false,
        test: false,
        exclude_should_panic: false,
        ensure_time: false,
        unit_test_threshold: threshold(50, 100),
        integration_test_threshold: threshold(500, 1000),
    }
}

fn names(tests: &[RegisteredTest]) -> Vec<String> {
    tests.iter().map(|t| t.filterable_name()).collect()
}

#[test]
fn substring_filter_matches_part_of_name() {
    let t = test_named("c", "parser", "handles_empty_input");
    assert!(filter_test(&t, "empty", false));
    assert!(filter_test(&t, "parser::handles", false));
    assert!(!filter_test(&t, "lexer", false));
    assert!(filter_test(&t, "", false));
}

#[test]
fn exact_filter_needs_whole_name() {
    let t = test_named("c", "parser", "handles_empty_input");
    assert!(filter_test(&t, "parser::handles_empty_input", true));
    assert!(!filter_test(&t, "handles_empty_input", true));
    assert!(!filter_test(&t, "parser", true));
}

#[test]
fn exact_match_also_matches_partially() {
    let t = test_named("c", "a", "b");
    assert!(filter_test(&t, "a::b", true));
    assert!(filter_test(&t, "a::b", false));
}

#[test]
fn empty_tag_filter_selects_untagged_tests() {
    assert!(filter_test(&tagged("t", &[]), ":tag:", false));
    assert!(!filter_test(&tagged("t", &["slow"]), ":tag:", false));
}

#[test]
fn single_tag_filter() {
    assert!(filter_test(&tagged("t", &["slow", "db"]), ":tag:db", false));
    assert!(!filter_test(&tagged("t", &["slow"]), ":tag:db", false));
}

#[test]
fn tag_filter_or_groups() {
    let f = ":tag:db|net";
    assert!(filter_test(&tagged("t", &["net"]), f, false));
    assert!(filter_test(&tagged("t", &["db"]), f, true));
    assert!(!filter_test(&tagged("t", &["fs"]), f, false));
}

#[test]
fn tag_filter_and_groups() {
    let f = ":tag:db&slow|net";
    assert!(filter_test(&tagged("t", &["slow", "db"]), f, false));
    assert!(!filter_test(&tagged("t", &["db"]), f, false));
    assert!(filter_test(&tagged("t", &["net"]), f, false));
}

#[test]
fn tag_filter_with_empty_group_needs_empty_tag() {
    assert!(!filter_test(&tagged("t", &["db"]), ":tag:x|", false));
    assert!(filter_test(&tagged("t", &[""]), ":tag:x|", false));
    assert!(filter_test(&tagged("t", &["x"]), ":tag:x|", false));
}

#[test]
fn tag_filter_is_not_a_name_filter() {
    let t = test_named("c", "m", ":tag:db");
    assert!(!filter_test(&t, ":tag:db", false));
}

#[test]
fn suite_tags_are_added_to_tests_of_the_suite() {
    let tests = vec![test_named("c", "m::suite", "a"), test_named("c", "m", "b"), test_named("c", "other", "c")];
    let props = vec![
        RegisteredTestSuiteProperty::Tag {
            name: "suite".to_string(),
            crate_name: "c".to_string(),
            mod_path: "m".to_string(),
            tag: "slow".to_string(),
        },
        RegisteredTestSuiteProperty::Sequential {
            name: "suite".to_string(),
            crate_name: "c".to_string(),
            mod_path: "m".to_string(),
        },
        RegisteredTestSuiteProperty::Tag {
            name: "suite".to_string(),
            crate_name: "c".to_string(),
            mod_path: "m".to_string(),
            tag: "db".to_string(),
        },
    ];
    let tagged = apply_suite_tags(&tests, &props);
    assert_eq!(tagged.len(), 3);
    assert_eq!(tagged[0].tags, vec!["slow".to_string(), "db".to_string()]);
    assert!(tagged[1].tags.is_empty());
    assert!(tagged[2].tags.is_empty());
    assert_eq!(tagged[0].name, "a");
}

#[test]
fn suite_tags_keep_own_tags_first() {
    let mut t = test_named("c", "m::s", "a");
    t.tags = vec!["own".to_string()];
    let props = vec![RegisteredTestSuiteProperty::Tag {
        name: "s".to_string(),
        crate_name: "c".to_string(),
        mod_path: "m".to_string(),
        tag: "added".to_string(),
    }];
    let out = apply_suite_tags(&[t], &props);
    assert_eq!(out[0].tags, vec!["own".to_string(), "added".to_string()]);
}

#[test]
fn sequential_properties_change_nothing() {
    let tests = vec![tagged("a", &["x"])];
    let props = vec![RegisteredTestSuiteProperty::Sequential {
        name: "m".to_string(),
        crate_name: "c".to_string(),
        mod_path: "".to_string(),
    }];
    let out = apply_suite_tags(&tests, &props);
    assert_eq!(out[0].tags, vec!["x".to_string()]);
}

fn mixed_tests() -> Vec<RegisteredTest> {
    let mut bench = test_named("c", "m", "bench_it");
    bench.run = TestFunction::SyncBench(0);
    let mut panics = test_named("c", "m", "panics");
    panics.should_panic = ShouldPanic::Yes;
    vec![test_named("c", "m", "plain"), bench, panics, test_named("c", "", "root")]
}

#[test]
fn default_arguments_select_everything() {
    let tests = mixed_tests();
    let out = filter_registered_tests(&default_args(), &tests);
    assert_eq!(names(&out), names(&tests));
}

#[test]
fn skip_removes_exact_names() {
    let mut args = default_args();
    args.skip = vec!["m::plain".to_string(), "plain".to_string()];
    let out = filter_registered_tests(&args, &mixed_tests());
    assert_eq!(names(&out), vec!["m::bench_it", "m::panics", "root"]);
}

#[test]
fn bench_and_test_flags() {
    let mut args = default_args();
    args.bench = true;
    assert_eq!(names(&filter_registered_tests(&args, &mixed_tests())), vec!["m::bench_it"]);
    args.bench = false;
    args.test = true;
    assert_eq!(
        names(&filter_registered_tests(&args, &mixed_tests())),
        vec!["m::plain", "m::panics", "root"]
    );
    args.bench = true;
    assert_eq!(filter_registered_tests(&args, &mixed_tests()).len(), 4);
}

#[test]
fn exclude_should_panic() {
    let mut args = default_args();
    args.exclude_should_panic = true;
    assert_eq!(
        names(&filter_registered_tests(&args, &mixed_tests())),
        vec!["m::plain", "m::bench_it", "root"]
    );
}

#[test]
fn name_filter_and_exact() {
    let mut args = default_args();
    args.filter = Some("p".to_string());
    assert_eq!(names(&filter_registered_tests(&args, &mixed_tests())), vec!["m::plain", "m::panics"]);
    args.exact = true;
    args.filter = Some("root".to_string());
    assert_eq!(names(&filter_registered_tests(&args, &mixed_tests())), vec!["root"]);
}

#[test]
fn selection_is_idempotent() {
    let mut args = default_args();
    args.filter = Some("m::".to_string());
    args.test = true;
    let once = filter_registered_tests(&args, &mixed_tests());
    let twice = filter_registered_tests(&args, &once);
    assert_eq!(names(&once), names(&twice));
}

#[test]
fn ensure_time_picks_threshold_by_test_type() {
    let mut args = default_args();
    let unit = test_named("c", "m", "u");
    let mut integration = test_named("c", "m", "i");
    integration.test_type = TestType::IntegrationTest;
    assert_eq!(get_ensure_time(&args, &unit), None);
    args.ensure_time = true;
    assert_eq!(get_ensure_time(&args, &unit), Some(threshold(50, 100)));
    assert_eq!(get_ensure_time(&args, &integration), Some(threshold(500, 1000)));
}

fn generator(name: &str, ignored: bool) -> RegisteredTestGenerator {
    RegisteredTestGenerator {
        name: name.to_string(),
        crate_name: "c".to_string(),
        mod_path: "gen_mod".to_string(),
        run: TestGeneratorFunction::Sync(0),
        is_ignored: ignored,
    }
}

fn generated(name: &str, run: usize) -> GeneratedTest {
    GeneratedTest {
        name: name.to_string(),
        run: TestFunction::Sync(run),
        test_type: TestType::IntegrationTest,
    }
}

#[test]
fn generated_tests_are_named_after_their_generator() {
    let mut target = vec![test_named("c", "m", "existing")];
    add_generated_tests(&mut target, &generator("cases", true), vec![generated("one", 1), generated("two", 2)]);
    assert_eq!(target.len(), 3);
    assert_eq!(target[0].name, "existing");
    assert_eq!(target[1].name, "cases::one");
    assert_eq!(target[2].name, "cases::two");
    assert_eq!(target[1].crate_name, "c");
    assert_eq!(target[1].mod_path, "gen_mod");
    assert!(target[1].is_ignored);
    assert_eq!(target[2].run, TestFunction::Sync(2));
    assert_eq!(target[2].test_type, TestType::IntegrationTest);
    assert_eq!(target[2].should_panic, ShouldPanic::No);
    assert_eq!(target[2].flakiness_control, FlakinessControl::Off);
    assert_eq!(target[2].capture_control, CaptureControl::Default);
    assert_eq!(target[2].timeout, None);
    assert!(target[2].tags.is_empty());
}

#[test]
fn sync_generators_in_order() {
    let gens = vec![generator("a", false), generator("b", false)];
    let out = generate_tests_sync(&gens, vec![vec![generated("x", 0)], vec![generated("y", 1), generated("z", 2)]]);
    let got: Vec<String> = out.iter().map(|t| t.name.clone()).collect();
    assert_eq!(got, vec!["a::x", "b::y", "b::z"]);
}

#[test]
fn suite_tag_then_tag_filter_selects_test() {
    let tests = vec![test_named("c", "m::suite", "a"), test_named("c", "m", "b")];
    let props = vec![RegisteredTestSuiteProperty::Tag {
        name: "suite".to_string(),
        crate_name: "c".to_string(),
        mod_path: "m".to_string(),
        tag: "slow".to_string(),
    }];
    let tagged = apply_suite_tags(&tests, &props);
    let mut args = default_args();
    args.filter = Some(":tag:slow".to_string());
    let out = filter_registered_tests(&args, &tagged);
    assert_eq!(names(&out), vec!["m::suite::a"]);
}

#[test]
fn generated_tests_live_in_generator_module() {
    let mut target = Vec::new();
    let g = generator("cases", false);
    add_generated_tests(&mut target, &g, vec![generated("one", 1)]);
    assert_eq!(target[0].crate_and_module(), g.crate_and_module());
    assert!(target[0].name.starts_with("cases"));
    assert_eq!(target[0].filterable_name(), "gen_mod::cases::one");
}

#[test]
fn generated_tests_of_async_generators_are_registered() {
    let mut slow = generator("later", false);
    slow.run = TestGeneratorFunction::Async(0);
    let gens = vec![generator("now", false), slow];
    let out = register_generated_tests(&gens, vec![vec![generated("x", 0)], vec![generated("y", 1)]]);
    let got: Vec<String> = out.iter().map(|t| t.name.clone()).collect();
    assert_eq!(got, vec!["now::x", "later::y"]);
}
