use module_registry::exports::ExportsObject;
use module_registry::install::ClassOutcomeReport;
use module_registry::registry::Registry;
use module_registry::types::{FactoryOutcome, InstallError, Property, RegistryError};

fn ns(s: &str) -> Option<String> {
    Some(s.to_string())
}

#[test]
fn registered_exports_are_attached_with_their_values() {
    let mut r = Registry::new();
    r.register_module_export(None, "top".to_string(), 1);
    r.register_module_export(ns("math"), "add".to_string(), 2);
    let mut ex = ExportsObject::new();
    let outcomes = vec![FactoryOutcome::Produced(10), FactoryOutcome::Produced(20)];
    let report = r.install_module(&mut ex, &outcomes, &vec![], &vec![], 1000);
    assert!(report.errors.is_empty());
    assert_eq!(ex.get_export(&None, &"top".to_string()), Some(10));
    assert_eq!(ex.get_export(&ns("math"), &"add".to_string()), Some(20));
}

#[test]
fn later_registration_of_same_key_wins() {
    let mut r = Registry::new();
    r.register_module_export(None, "dup".to_string(), 1);
    r.register_module_export(None, "dup".to_string(), 2);
    let mut ex = ExportsObject::new();
    let outcomes = vec![FactoryOutcome::Produced(11), FactoryOutcome::Produced(22)];
    r.install_module(&mut ex, &outcomes, &vec![], &vec![], 1000);
    assert_eq!(ex.get_export(&None, &"dup".to_string()), Some(22));
}

#[test]
fn two_exports_share_one_namespace_object() {
    let mut r = Registry::new();
    r.register_module_export(ns("util"), "first".to_string(), 1);
    r.register_module_export(ns("util"), "second".to_string(), 2);
    let mut ex = ExportsObject::new();
    let outcomes = vec![FactoryOutcome::Produced(5), FactoryOutcome::Produced(6)];
    r.install_module(&mut ex, &outcomes, &vec![], &vec![], 1000);
    assert!(ex.has_namespace(&"util".to_string()));
    assert_eq!(ex.namespace_count(), 1);
    assert_eq!(ex.get_export(&ns("util"), &"first".to_string()), Some(5));
    assert_eq!(ex.get_export(&ns("util"), &"second".to_string()), Some(6));
}

#[test]
fn class_under_two_namespaces_gets_independent_values() {
    let mut r = Registry::new();
    let props = || {
        vec![
            Property { name: "constructor".to_string(), is_ctor: true, method: Some(77) },
            Property { name: "get_x".to_string(), is_ctor: false, method: Some(78) },
        ]
    };
    r.register_class("Point".to_string(), ns("a"), "Point".to_string(), props());
    r.register_class("Point".to_string(), ns("b"), "PointB".to_string(), props());
    let mut ex = ExportsObject::new();
    let report = r.install_module(&mut ex, &vec![], &vec![true, true], &vec![], 1000);
    assert!(report.errors.is_empty());
    assert_eq!(report.classes.len(), 2);
    let (d1, d2) = match (&report.classes[0], &report.classes[1]) {
        (ClassOutcomeReport::Defined(d1), ClassOutcomeReport::Defined(d2)) => (d1, d2),
        _ => panic!("both classes should be defined"),
    };
    assert_ne!(d1.class_handle, d2.class_handle);
    assert_ne!(d1.ctor_ref, d2.ctor_ref);
    assert_eq!(d1.ctor_method, Some(77));
    assert_eq!(d2.ctor_method, Some(77));
    assert_eq!(d1.members.len(), 1);
    assert_eq!(d2.members.len(), 1);
    assert_eq!(d1.members[0].name, "get_x");
    assert_eq!(ex.get_export(&ns("a"), &"Point".to_string()), Some(d1.class_handle));
    assert_eq!(ex.get_export(&ns("b"), &"PointB".to_string()), Some(d2.class_handle));
}

#[test]
fn class_without_constructor_property_gets_noop_constructor() {
    let mut r = Registry::new();
    let props = vec![Property { name: "m".to_string(), is_ctor: false, method: Some(9) }];
    r.register_class("Bare".to_string(), None, "Bare".to_string(), props);
    let mut ex = ExportsObject::new();
    let report = r.install_module(&mut ex, &vec![], &vec![true], &vec![], 1000);
    match &report.classes[0] {
        ClassOutcomeReport::Defined(d) => {
            assert_eq!(d.ctor_method, None);
            assert_eq!(d.members.len(), 1);
        },
        _ => panic!("class should be defined"),
    }
}

#[test]
fn registering_class_twice_merges_properties() {
    let mut r = Registry::new();
    r.register_class(
        "Acc".to_string(),
        None,
        "Acc".to_string(),
        vec![Property { name: "a".to_string(), is_ctor: false, method: Some(1) }],
    );
    r.register_class(
        "Acc".to_string(),
        None,
        "Acc2".to_string(),
        vec![Property { name: "b".to_string(), is_ctor: false, method: Some(2) }],
    );
    let mut ex = ExportsObject::new();
    let report = r.install_module(&mut ex, &vec![], &vec![true], &vec![], 1000);
    match &report.classes[0] {
        ClassOutcomeReport::Defined(d) => {
            // last writer wins for the exposed name; properties accumulate
            assert_eq!(d.js_name, "Acc2");
            assert_eq!(d.members.len(), 2);
            assert_eq!(d.members[0].name, "a");
            assert_eq!(d.members[1].name, "b");
        },
        _ => panic!("class should be defined"),
    }
}

#[test]
fn function_handle_and_native_callback_agree() {
    let mut r = Registry::new();
    r.register_js_function("fetch\0".to_string(), 42, Some(900));
    let mut ex = ExportsObject::new();
    r.install_module(&mut ex, &vec![], &vec![], &vec![], 1000);
    let f = r.get_js_function(42).expect("registered factory resolves");
    let c = r.get_c_callback(42).expect("registered factory resolves");
    assert_eq!(f.callback, Some(c));
    assert_eq!(f.name, "fetch\0");
    assert_eq!(r.get_js_function(43).unwrap_err(), RegistryError::InvalidArg);
    assert_eq!(r.get_c_callback(43).unwrap_err(), RegistryError::InvalidArg);
}

#[test]
fn factory_recorded_twice_keeps_last_record() {
    let mut r = Registry::new();
    r.register_js_function("one\0".to_string(), 7, Some(1));
    r.register_js_function("two\0".to_string(), 7, Some(2));
    let mut ex = ExportsObject::new();
    r.install_module(&mut ex, &vec![], &vec![], &vec![], 1000);
    let f = r.get_js_function(7).unwrap();
    assert_eq!(f.name, "two\0");
    assert_eq!(r.get_c_callback(7), Ok(2));
}

#[test]
fn lookups_are_idempotent() {
    let mut r = Registry::new();
    r.register_js_function("f\0".to_string(), 5, Some(50));
    r.register_class(
        "K".to_string(),
        None,
        "K".to_string(),
        vec![Property { name: "constructor".to_string(), is_ctor: true, method: Some(3) }],
    );
    let mut ex = ExportsObject::new();
    r.install_module(&mut ex, &vec![], &vec![true], &vec![], 1000);
    assert_eq!(r.get_c_callback(5), r.get_c_callback(5));
    let a = r.get_js_function(5).unwrap();
    let b = r.get_js_function(5).unwrap();
    assert_eq!(a.name, b.name);
    assert_eq!(a.callback, b.callback);
    assert_eq!(
        r.get_class_constructor(&"K".to_string()),
        r.get_class_constructor(&"K".to_string())
    );
}

#[test]
fn class_constructor_lookup_after_install() {
    let mut r = Registry::new();
    r.register_class(
        "Foo".to_string(),
        None,
        "Foo".to_string(),
        vec![Property { name: "constructor".to_string(), is_ctor: true, method: Some(8) }],
    );
    let mut ex = ExportsObject::new();
    let report = r.install_module(&mut ex, &vec![], &vec![true], &vec![], 1000);
    let ctor_ref = match &report.classes[0] {
        ClassOutcomeReport::Defined(d) => d.ctor_ref,
        _ => panic!("class should be defined"),
    };
    assert_eq!(r.get_class_constructor(&"Foo".to_string()), Some(ctor_ref));
    assert_eq!(r.get_class_constructor(&"Never".to_string()), None);
}

#[test]
fn partial_failure_keeps_other_exports_and_surfaces_one_error() {
    let mut r = Registry::new();
    r.register_module_export(None, "a".to_string(), 1);
    r.register_module_export(None, "b".to_string(), 2);
    r.register_module_export(None, "c".to_string(), 3);
    let mut ex = ExportsObject::new();
    let outcomes = vec![
        FactoryOutcome::Produced(100),
        FactoryOutcome::Failed,
        FactoryOutcome::Produced(300),
    ];
    let report = r.install_module(&mut ex, &outcomes, &vec![], &vec![], 1000);
    assert_eq!(ex.get_export(&None, &"a".to_string()), Some(100));
    assert_eq!(ex.get_export(&None, &"b".to_string()), None);
    assert_eq!(ex.get_export(&None, &"c".to_string()), Some(300));
    assert_eq!(report.errors.len(), 1);
    match &report.errors[0] {
        InstallError::ExportFactoryFailed { name } => assert_eq!(name, "b"),
        _ => panic!("the one error should name the failed export"),
    }
}

#[test]
fn failed_class_definition_does_not_stop_later_ones() {
    let mut r = Registry::new();
    let p = |m: u64| vec![Property { name: "constructor".to_string(), is_ctor: true, method: Some(m) }];
    r.register_class("A".to_string(), None, "A".to_string(), p(1));
    r.register_class("B".to_string(), None, "B".to_string(), p(2));
    let mut ex = ExportsObject::new();
    let report = r.install_module(&mut ex, &vec![], &vec![false, true], &vec![], 1000);
    assert!(matches!(report.classes[0], ClassOutcomeReport::Failed));
    assert!(matches!(report.classes[1], ClassOutcomeReport::Defined(_)));
    assert_eq!(report.errors.len(), 1);
    match &report.errors[0] {
        InstallError::ClassDefineFailed { js_name } => assert_eq!(js_name, "A"),
        _ => panic!("the one error should name the failed class"),
    }
    assert_eq!(ex.get_export(&None, &"A".to_string()), None);
    assert!(ex.get_export(&None, &"B".to_string()).is_some());
}

#[test]
fn failed_module_callback_is_surfaced_with_its_index() {
    let mut r = Registry::new();
    r.register_module_exports(501);
    r.register_module_exports(502);
    let mut ex = ExportsObject::new();
    let report = r.install_module(&mut ex, &vec![], &vec![], &vec![true, false], 1000);
    assert_eq!(report.errors.len(), 1);
    match &report.errors[0] {
        InstallError::ModuleCallbackFailed { index } => assert_eq!(*index, 1),
        _ => panic!("the one error should name the failed callback"),
    }
}

#[test]
fn errors_come_in_drain_order() {
    let mut r = Registry::new();
    r.register_module_export(None, "e".to_string(), 1);
    r.register_class(
        "C".to_string(),
        None,
        "C".to_string(),
        vec![Property { name: "constructor".to_string(), is_ctor: true, method: Some(1) }],
    );
    r.register_module_exports(9);
    let mut ex = ExportsObject::new();
    let report = r.install_module(
        &mut ex,
        &vec![FactoryOutcome::Failed],
        &vec![false],
        &vec![false],
        1000,
    );
    assert_eq!(report.errors.len(), 3);
    assert!(matches!(report.errors[0], InstallError::ExportFactoryFailed { .. }));
    assert!(matches!(report.errors[1], InstallError::ClassDefineFailed { .. }));
    assert!(matches!(report.errors[2], InstallError::ModuleCallbackFailed { .. }));
}

#[test]
fn pre_existing_namespace_object_is_reused() {
    let mut r = Registry::new();
    r.register_module_export(ns("m"), "x".to_string(), 1);
    r.register_class(
        "Y".to_string(),
        ns("m"),
        "Y".to_string(),
        vec![Property { name: "constructor".to_string(), is_ctor: true, method: Some(4) }],
    );
    let mut ex = ExportsObject::new();
    r.install_module(&mut ex, &vec![FactoryOutcome::Produced(1)], &vec![true], &vec![], 1000);
    assert_eq!(ex.namespace_count(), 1);
    assert_eq!(ex.get_export(&ns("m"), &"x".to_string()), Some(1));
    assert!(ex.get_export(&ns("m"), &"Y".to_string()).is_some());
}
