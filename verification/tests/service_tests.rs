use rest_bridge::services::ServiceSlot;

#[test]
fn a_new_slot_is_empty() {
    let s: ServiceSlot<u32> = ServiceSlot::new();
    assert!(!s.ready());
    assert!(s.handle().is_none());
}

#[test]
fn the_first_instance_wins_and_is_never_replaced() {
    let mut s: ServiceSlot<u32> = ServiceSlot::new();
    assert!(s.create_if_absent(Ok(7)).is_ok());
    assert!(s.ready());
    assert_eq!(s.handle(), Some(&7));
    assert!(s.create_if_absent(Ok(8)).is_ok());
    assert_eq!(s.handle(), Some(&7));
    assert!(s.create_if_absent(Err("late failure".to_string())).is_ok());
    assert_eq!(s.handle(), Some(&7));
}

#[test]
fn a_failed_construction_surfaces_and_leaves_the_slot_empty() {
    let mut s: ServiceSlot<u32> = ServiceSlot::new();
    let e = s.create_if_absent(Err("resource exhausted".to_string())).unwrap_err();
    assert_eq!(e, "resource exhausted");
    assert!(!s.ready());
    assert!(s.create_if_absent(Ok(9)).is_ok());
    assert_eq!(s.handle(), Some(&9));
}
