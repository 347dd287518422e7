use rust_dynamic_binding::Arguments;
use rust_dynamic_binding::TypeErasedValue;

#[test]
fn get_index_reads_in_call_site_order() {
    let values = vec![
        TypeErasedValue::wrap(10i32),
        TypeErasedValue::wrap(String::from("second")),
        TypeErasedValue::wrap(30u8),
    ];
    let arguments = values.as_slice();
    assert_eq!(arguments.get_index(0).and_then(|v| v.try_extract::<i32>()), Some(&10));
    assert_eq!(
        arguments.get_index(1).and_then(|v| v.try_extract::<String>()),
        Some(&String::from("second"))
    );
    assert_eq!(arguments.get_index(2).and_then(|v| v.try_extract::<u8>()), Some(&30));
}

#[test]
fn get_index_past_the_end_gives_none() {
    let values = vec![TypeErasedValue::wrap(10i32)];
    let arguments = values.as_slice();
    assert!(arguments.get_index(0).is_some());
    assert!(arguments.get_index(1).is_none());
    assert!(arguments.get_index(usize::MAX).is_none());
}

#[test]
fn get_index_on_an_empty_list_gives_none() {
    let values: Vec<TypeErasedValue> = vec![];
    let arguments = values.as_slice();
    assert!(arguments.get_index(0).is_none());
}

#[test]
fn a_slice_serves_as_a_trait_object() {
    let values = vec![TypeErasedValue::wrap(1u8), TypeErasedValue::wrap(2u8)];
    let slice = values.as_slice();
    let arguments: &dyn Arguments = &slice;
    assert_eq!(arguments.get_index(1).and_then(|v| v.try_extract::<u8>()), Some(&2));
    assert!(arguments.get_index(2).is_none());
}
