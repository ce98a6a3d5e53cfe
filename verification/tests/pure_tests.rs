use dotdotyew::component::pure::Pure;

#[test]
fn a_pure_component_wraps_its_properties() {
    let wrapped: Pure<i32> = Pure::create(7);
    assert_eq!(wrapped.0, 7);
}

#[test]
fn an_update_never_rerenders() {
    let mut wrapped: Pure<i32> = Pure::create(7);
    assert!(!wrapped.update());
    assert_eq!(wrapped.0, 7);
}

#[test]
fn equal_properties_are_ignored() {
    let mut wrapped: Pure<i32> = Pure::create(7);
    assert!(!wrapped.change(7));
    assert_eq!(wrapped.0, 7);
}

#[test]
fn changed_properties_are_stored_and_rerender() {
    let mut wrapped: Pure<i32> = Pure::create(7);
    assert!(wrapped.change(8));
    assert_eq!(wrapped.0, 8);
}
