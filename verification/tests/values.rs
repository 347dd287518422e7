use rust_dynamic_binding::TypeErasedValue;

#[derive(Debug, PartialEq)]
struct Metres(u32);

#[derive(Debug, PartialEq)]
struct Seconds(u32);

#[test]
fn wrapped_integer_is_extracted_unchanged() {
    let value = TypeErasedValue::wrap(42i32);
    assert_eq!(value.try_extract::<i32>(), Some(&42));
}

#[test]
fn wrapped_string_is_extracted_unchanged() {
    let value = TypeErasedValue::wrap(String::from("hello"));
    assert_eq!(value.try_extract::<String>().map(|s| s.as_str()), Some("hello"));
}

#[test]
fn wrapped_float_is_extracted_unchanged() {
    let value = TypeErasedValue::wrap(1.5f32);
    assert_eq!(value.try_extract::<f32>(), Some(&1.5f32));
}

#[test]
fn wrapped_vector_is_extracted_unchanged() {
    let value = TypeErasedValue::wrap(vec![1u8, 2, 3]);
    assert_eq!(value.try_extract::<Vec<u8>>(), Some(&vec![1u8, 2, 3]));
}

#[test]
fn wrapped_unit_is_extracted_unchanged() {
    let value = TypeErasedValue::wrap(());
    assert_eq!(value.try_extract::<()>(), Some(&()));
}

#[test]
fn extraction_as_another_type_gives_none() {
    let value = TypeErasedValue::wrap(42i32);
    assert_eq!(value.try_extract::<u32>(), None);
    assert_eq!(value.try_extract::<i64>(), None);
    assert_eq!(value.try_extract::<f32>(), None);
    assert_eq!(value.try_extract::<String>(), None);
}

#[test]
fn types_of_equal_layout_are_told_apart() {
    let value = TypeErasedValue::wrap(Metres(7));
    assert_eq!(value.try_extract::<Seconds>(), None);
    assert_eq!(value.try_extract::<u32>(), None);
    assert_eq!(value.try_extract::<Metres>(), Some(&Metres(7)));
}

#[test]
fn a_reference_and_its_target_are_different_types() {
    let value = TypeErasedValue::wrap("text");
    assert_eq!(value.try_extract::<&'static str>(), Some(&"text"));
    assert_eq!(value.try_extract::<String>(), None);
}

#[test]
fn a_box_and_its_content_are_different_types() {
    let value = TypeErasedValue::wrap(Box::new(5u8));
    assert_eq!(value.try_extract::<u8>(), None);
    assert_eq!(value.try_extract::<Box<u8>>(), Some(&Box::new(5u8)));
}

#[test]
fn extraction_does_not_consume_the_value() {
    let value = TypeErasedValue::wrap(9u64);
    assert_eq!(value.try_extract::<u64>(), Some(&9));
    assert_eq!(value.try_extract::<u8>(), None);
    assert_eq!(value.try_extract::<u64>(), Some(&9));
}

#[test]
fn an_erased_value_can_itself_be_wrapped() {
    let inner = TypeErasedValue::wrap(3i32);
    let outer = TypeErasedValue::wrap(inner);
    assert_eq!(outer.try_extract::<i32>(), None);
    let found = outer.try_extract::<TypeErasedValue>();
    assert!(found.is_some());
    assert_eq!(found.and_then(|v| v.try_extract::<i32>()), Some(&3));
}
