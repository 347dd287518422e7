use rust_dynamic_binding::make_dynamic_0;
use rust_dynamic_binding::make_dynamic_1;
use rust_dynamic_binding::make_dynamic_2;
use rust_dynamic_binding::make_dynamic_3;
use rust_dynamic_binding::make_dynamic_4;
use rust_dynamic_binding::DynamicCallable;
use rust_dynamic_binding::DynamicIntrospectable;
use rust_dynamic_binding::TypeErasedValue;
use std::any::TypeId;

#[test]
fn arity_zero_has_no_parameters() {
    let f = make_dynamic_0(|| 1u8);
    assert_eq!(f.get_argument_type(0), None);
    assert_eq!(f.get_argument_type(1), None);
    assert_eq!(f.get_return_type(), Some(TypeId::of::<u8>()));
}

#[test]
fn arity_one_tells_its_parameter() {
    let f = make_dynamic_1(|x: &i32| x.to_string());
    assert_eq!(f.get_argument_type(0), Some(TypeId::of::<i32>()));
    assert_eq!(f.get_argument_type(1), None);
    assert_eq!(f.get_return_type(), Some(TypeId::of::<String>()));
}

#[test]
fn arity_two_tells_its_parameters_in_order() {
    let f = make_dynamic_2(|x: &i32, y: &String| format!("{}{}", x, y).len());
    assert_eq!(f.get_argument_type(0), Some(TypeId::of::<i32>()));
    assert_eq!(f.get_argument_type(1), Some(TypeId::of::<String>()));
    assert_eq!(f.get_argument_type(2), None);
    assert_eq!(f.get_return_type(), Some(TypeId::of::<usize>()));
}

#[test]
fn arity_three_tells_its_parameters_in_order() {
    let f = make_dynamic_3(|x: &u8, y: &u16, z: &u32| *x as u64 + *y as u64 + *z as u64);
    assert_eq!(f.get_argument_type(0), Some(TypeId::of::<u8>()));
    assert_eq!(f.get_argument_type(1), Some(TypeId::of::<u16>()));
    assert_eq!(f.get_argument_type(2), Some(TypeId::of::<u32>()));
    assert_eq!(f.get_argument_type(3), None);
    assert_eq!(f.get_return_type(), Some(TypeId::of::<u64>()));
}

#[test]
fn arity_four_tells_its_parameters_in_order() {
    let f =
        make_dynamic_4(|a: &bool, b: &char, c: &i8, d: &String| format!("{}{}{}{}", a, b, c, d));
    assert_eq!(f.get_argument_type(0), Some(TypeId::of::<bool>()));
    assert_eq!(f.get_argument_type(1), Some(TypeId::of::<char>()));
    assert_eq!(f.get_argument_type(2), Some(TypeId::of::<i8>()));
    assert_eq!(f.get_argument_type(3), Some(TypeId::of::<String>()));
    assert_eq!(f.get_argument_type(4), None);
    assert_eq!(f.get_argument_type(usize::MAX), None);
    assert_eq!(f.get_return_type(), Some(TypeId::of::<String>()));
}

#[test]
fn introspection_does_not_depend_on_calls() {
    let f = make_dynamic_2(|x: &i32, y: &i64| *x as i64 + y);
    let before = (f.get_argument_type(0), f.get_argument_type(1), f.get_return_type());

    let good = vec![TypeErasedValue::wrap(1i32), TypeErasedValue::wrap(2i64)];
    assert!(f.call(&good.as_slice()).is_ok());
    let bad = vec![TypeErasedValue::wrap(1i64)];
    assert!(f.call(&bad.as_slice()).is_err());

    let after = (f.get_argument_type(0), f.get_argument_type(1), f.get_return_type());
    assert_eq!(before, after);
    assert_eq!(after.0, Some(TypeId::of::<i32>()));
    assert_eq!(after.1, Some(TypeId::of::<i64>()));
    assert_eq!(after.2, Some(TypeId::of::<i64>()));
}

#[test]
fn introspection_does_not_run_the_bound_function() {
    let calls = std::rc::Rc::new(std::cell::Cell::new(0u32));
    let seen = std::rc::Rc::clone(&calls);
    let f = make_dynamic_1(move |x: &i32| {
        seen.set(seen.get() + 1);
        *x
    });
    assert!(f.get_argument_type(0).is_some());
    assert!(f.get_return_type().is_some());
    assert_eq!(calls.get(), 0);
}

#[test]
fn the_reported_parameter_type_is_the_one_a_call_demands() {
    let f = make_dynamic_1(|x: &u16| *x);
    let wrong = vec![TypeErasedValue::wrap(1u8)];
    let refusal = f.call(&wrong.as_slice()).unwrap_err();
    assert_eq!(
        refusal,
        rust_dynamic_binding::InvocationError::TypeMismatch(0, f.get_argument_type(0).unwrap())
    );
}

#[test]
fn the_reported_return_type_is_the_one_a_call_gives() {
    let f = make_dynamic_1(|x: &u16| *x as u32);
    let values = vec![TypeErasedValue::wrap(1u16)];
    let out = f.call(&values.as_slice()).unwrap();
    assert_eq!(f.get_return_type(), Some(TypeId::of::<u32>()));
    assert!(out.try_extract::<u32>().is_some());
}
