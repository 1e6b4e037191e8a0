use porcupine::class::WindowClass;

#[test]
fn class_from_name_owns_nothing() {
    let class = WindowClass::from_name("BUTTON");
    assert_eq!(class.name(), "BUTTON");
    assert!(!class.owns_registration());
}

#[test]
fn registered_class_owns_its_registration() {
    let class: WindowClass<u32> = WindowClass::registered("test_class_builder");
    assert_eq!(class.name(), "test_class_builder");
    assert!(class.owns_registration());
}
