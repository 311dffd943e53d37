use gdext_bridge::ffi::{unwrap_ref_unchecked, Binding};

#[test]
fn binding_is_empty_until_initialized() {
    let mut binding: Binding<&str, u32, Vec<u8>> = Binding::new();
    assert!(!binding.is_initialized());
    binding.initialize("interface", 7, vec![1, 2, 3]);
    assert!(binding.is_initialized());
    assert_eq!(*binding.get_interface(), "interface");
    assert_eq!(*binding.get_library(), 7);
    assert_eq!(binding.method_table(), &vec![1, 2, 3]);
}

#[test]
fn unwrap_ref_gives_the_value_inside() {
    let opt = Some(String::from("x"));
    assert_eq!(unwrap_ref_unchecked(&opt), "x");
}
