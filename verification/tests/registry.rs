use test_r_core::registry::{
    CaptureControl, DependencyConstructor, DynamicTestRegistration, FlakinessControl,
    RegisteredDependency, RegisteredTest, RegisteredTestGenerator, RegisteredTestSuiteProperty,
    ShouldPanic, TestFunction, TestGeneratorFunction, TestType,
};
use std::collections::hash_map::DefaultHasher;
use std::hash::{Hash, Hasher};

fn test_named(crate_name: &str, mod_path: &str, name: &str) -> RegisteredTest {
    RegisteredTest {
        name: name.to_string(),
        crate_name: crate_name.to_string(),
        mod_path: mod_path.to_string(),
        is_ignored: false,
        should_panic: ShouldPanic::No,
        run: TestFunction::Sync(0),
        test_type: TestType::UnitTest,
        timeout: None,
        flakiness_control: FlakinessControl::Off,
        capture_control: CaptureControl::Default,
        tags: Vec::new(),
    }
}

#[test]
fn filterable_name_with_module() {
    let t = test_named("my_crate", "tests::inner", "works");
    assert_eq!(t.filterable_name(), "tests::inner::works");
}

#[test]
fn filterable_name_at_crate_root() {
    let t = test_named("my_crate", "", "works");
    assert_eq!(t.filterable_name(), "works");
}

#[test]
fn fully_qualified_name_joins_all_parts() {
    let t = test_named("my_crate", "tests", "works");
    assert_eq!(t.fully_qualified_name(), "my_crate::tests::works");
}

#[test]
fn fully_qualified_name_skips_empty_parts() {
    assert_eq!(test_named("", "tests", "works").fully_qualified_name(), "tests::works");
    assert_eq!(test_named("my_crate", "", "works").fully_qualified_name(), "my_crate::works");
    assert_eq!(test_named("", "", "works").fully_qualified_name(), "works");
    assert_eq!(test_named("", "", "").fully_qualified_name(), "");
}

#[test]
fn crate_and_module_of_a_test() {
    assert_eq!(test_named("c", "m", "n").crate_and_module(), "c::m");
    assert_eq!(test_named("c", "", "n").crate_and_module(), "c");
    assert_eq!(test_named("", "m", "n").crate_and_module(), "m");
    assert_eq!(test_named("", "", "n").crate_and_module(), "");
}

#[test]
fn fully_qualified_name_law_on_values() {
    let t = test_named("c", "m", "n");
    let joined = format!("{}::{}", t.crate_and_module(), t.name);
    assert_eq!(t.fully_qualified_name(), joined);
    let with_filterable = format!("{}::{}", t.crate_name, t.filterable_name());
    assert_eq!(t.fully_qualified_name(), with_filterable);
}

#[test]
fn test_type_from_path() {
    assert_eq!(TestType::from_path("/home/u/project/src/lib.rs"), TestType::UnitTest);
    assert_eq!(TestType::from_path("/home/u/project/tests/it.rs"), TestType::IntegrationTest);
    assert_eq!(TestType::from_path("src/lib.rs"), TestType::IntegrationTest);
    assert_eq!(TestType::from_path(""), TestType::IntegrationTest);
}

#[test]
fn capture_control_decides_capturing() {
    assert!(CaptureControl::Default.requires_capturing(true));
    assert!(!CaptureControl::Default.requires_capturing(false));
    assert!(CaptureControl::AlwaysCapture.requires_capturing(false));
    assert!(!CaptureControl::NeverCapture.requires_capturing(true));
}

#[test]
fn test_function_is_bench() {
    assert!(!TestFunction::Sync(1).is_bench());
    assert!(TestFunction::SyncBench(1).is_bench());
    assert!(!TestFunction::Async(1).is_bench());
    assert!(TestFunction::AsyncBench(1).is_bench());
}

#[test]
fn should_panic_duplicate_is_equal() {
    let s = ShouldPanic::WithMessage("boom".to_string());
    assert_eq!(s.duplicate(), s);
}

#[test]
fn dependency_crate_and_module_and_equality() {
    let a = RegisteredDependency {
        name: "db".to_string(),
        crate_name: "c".to_string(),
        mod_path: "deps".to_string(),
        constructor: DependencyConstructor::Sync(0),
        dependencies: vec!["cfg".to_string()],
    };
    let b = RegisteredDependency {
        name: "db".to_string(),
        crate_name: "other".to_string(),
        mod_path: "".to_string(),
        constructor: DependencyConstructor::Async(3),
        dependencies: Vec::new(),
    };
    let mut c = b.clone();
    c.name = "cache".to_string();
    assert_eq!(a.crate_and_module(), "c::deps");
    assert_eq!(b.crate_and_module(), "other");
    assert!(a == b);
    assert!(a != c);
    let mut ha = DefaultHasher::new();
    a.hash(&mut ha);
    let mut hb = DefaultHasher::new();
    b.hash(&mut hb);
    assert_eq!(ha.finish(), hb.finish());
}

#[test]
fn suite_property_accessors() {
    let p = RegisteredTestSuiteProperty::Tag {
        name: "suite".to_string(),
        crate_name: "c".to_string(),
        mod_path: "m".to_string(),
        tag: "slow".to_string(),
    };
    assert_eq!(p.name(), "suite");
    assert_eq!(p.crate_name(), "c");
    assert_eq!(p.mod_path(), "m");
    assert_eq!(p.crate_and_module(), "c::m::suite");
    let q = RegisteredTestSuiteProperty::Sequential {
        name: "suite".to_string(),
        crate_name: "".to_string(),
        mod_path: "".to_string(),
    };
    assert_eq!(q.crate_and_module(), "suite");
}

#[test]
fn generator_crate_and_module() {
    let g = RegisteredTestGenerator {
        name: "gen".to_string(),
        crate_name: "c".to_string(),
        mod_path: "".to_string(),
        run: TestGeneratorFunction::Sync(0),
        is_ignored: false,
    };
    assert_eq!(g.crate_and_module(), "c");
}

#[test]
fn dynamic_registration_keeps_order() {
    let mut reg = DynamicTestRegistration::new();
    reg.add_sync_test("first", TestType::UnitTest, 4);
    reg.add_sync_test("second", TestType::IntegrationTest, 7);
    let tests = reg.to_vec();
    assert_eq!(tests.len(), 2);
    assert_eq!(tests[0].name, "first");
    assert_eq!(tests[0].run, TestFunction::Sync(4));
    assert_eq!(tests[0].test_type, TestType::UnitTest);
    assert_eq!(tests[1].name, "second");
    assert_eq!(tests[1].run, TestFunction::Sync(7));
    assert_eq!(tests[1].test_type, TestType::IntegrationTest);
}

#[test]
fn dynamic_registration_default_is_empty() {
    let reg = DynamicTestRegistration::default();
    assert!(reg.to_vec().is_empty());
}

#[test]
fn duplicate_keeps_everything() {
    let mut t = test_named("c", "m", "n");
    t.tags = vec!["a".to_string(), "b".to_string()];
    t.should_panic = ShouldPanic::WithMessage("x".to_string());
    let d = t.duplicate();
    assert_eq!(d.name, t.name);
    assert_eq!(d.crate_name, t.crate_name);
    assert_eq!(d.mod_path, t.mod_path);
    assert_eq!(d.tags, t.tags);
    assert_eq!(d.should_panic, t.should_panic);
}

#[test]
fn dynamic_registration_async_tests() {
    let mut reg = DynamicTestRegistration::new();
    reg.add_async_test("later", TestType::UnitTest, 2);
    reg.add_sync_test("now", TestType::UnitTest, 0);
    let tests = reg.to_vec();
    assert_eq!(tests[0].run, TestFunction::Async(2));
    assert_eq!(tests[0].name, "later");
    assert_eq!(tests[1].run, TestFunction::Sync(0));
}

#[test]
fn dynamic_registration_keeps_repeated_names_in_order() {
    let mut reg = DynamicTestRegistration::new();
    reg.add_sync_test("same", TestType::UnitTest, 1);
    reg.add_sync_test("other", TestType::IntegrationTest, 2);
    reg.add_sync_test("same", TestType::IntegrationTest, 3);
    let tests = reg.to_vec();
    let got: Vec<(String, TestType)> = tests.iter().map(|t| (t.name.clone(), t.test_type)).collect();
    assert_eq!(
        got,
        vec![
            ("same".to_string(), TestType::UnitTest),
            ("other".to_string(), TestType::IntegrationTest),
            ("same".to_string(), TestType::IntegrationTest),
        ]
    );
    assert_eq!(tests[2].run, TestFunction::Sync(3));
}
