use ws_tunnel::mapping::{MappingPlan, Mappings};

#[test]
fn a_port_is_opened_under_the_lock_and_used_after_that() {
    let mut mappings: Mappings<&str> = Mappings::new();
    assert!(mappings.get(7000).is_none());
    assert!(matches!(mappings.plan(7000, false, "0.0.0.0"), MappingPlan::Lock));
    match mappings.plan(7000, true, "0.0.0.0") {
        MappingPlan::Open(address) => assert_eq!(address, "0.0.0.0:7000"),
        other => panic!("{other:?}"),
    }
    assert!(mappings.register(7000, "first"));
    assert!(matches!(mappings.plan(7000, false, "0.0.0.0"), MappingPlan::Use(&"first")));
    assert!(matches!(mappings.plan(7000, true, "0.0.0.0"), MappingPlan::Use(&"first")));
    assert!(matches!(mappings.plan(7001, false, "0.0.0.0"), MappingPlan::Lock));
}

#[test]
fn the_first_mapping_of_a_port_stays() {
    let mut mappings = Mappings::new();
    assert!(mappings.register(22, 'a'));
    assert!(!mappings.register(22, 'b'));
    assert!(mappings.register(23, 'c'));
    assert_eq!(mappings.get(22), Some(&'a'));
    assert_eq!(mappings.get(23), Some(&'c'));
}
