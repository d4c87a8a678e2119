use hermes_engine::jsi::JSRuntime;
use hermes_engine::jsi::JSValue;

#[test]
fn test_jsvalue_undefined() {
    let value = JSValue::undefined();

    assert!(value.is_undefined());
    assert!(!value.is_null());
}

#[test]
fn test_jsvalue_null() {
    let value = JSValue::null();

    assert!(value.is_null());
    assert!(!value.is_undefined());
}

#[test]
fn test_jsvalue_bool() {
    let value_true = JSValue::bool(true);
    let value_false = JSValue::bool(false);

    assert!(value_true.is_bool());
    assert!(value_false.is_bool());
}

#[test]
fn test_jsvalue_number() {
    let value = JSValue::number_from_bits((42.5f64).to_bits());

    assert!(value.is_number());
    assert!(!value.is_bool());
}

#[test]
fn test_jsvalue_as_bool() {
    let value_true = JSValue::bool(true);
    let value_false = JSValue::bool(false);

    assert_eq!(value_true.as_bool(), true);
    assert_eq!(value_false.as_bool(), false);
}

#[test]
fn test_jsvalue_as_number() {
    let value = JSValue::number_from_bits((42.5f64).to_bits());

    assert_eq!(f64::from_bits(value.as_number_bits()), 42.5);
}

#[test]
fn test_jsvalue_as_string() {
    let mut jsi_runtime = JSRuntime::new();

    let handle = jsi_runtime.create_string("hello world");
    let value = JSValue::Str { id: handle.id };

    assert!(value.is_string());

    let str_value = value.as_string(&mut jsi_runtime).ok_or("Not a string").unwrap();
    assert_eq!(str_value.value(&mut jsi_runtime), "hello world");
}

#[test]
fn test_jsvalue_as_string_none() {
    let mut jsi_runtime = JSRuntime::new();

    let value = JSValue::number_from_bits((42.0f64).to_bits());

    assert!(value.is_number());
    assert!(value.as_string(&mut jsi_runtime).is_none());
}

#[test]
fn test_jsvalue_as_bigint() {
    let mut jsi_runtime = JSRuntime::new();

    let handle = jsi_runtime.create_bigint::<i64>(123);
    let value = JSValue::BigInt { id: handle.id };

    assert!(value.is_bigint());

    let bigint_value = value.as_bigint(&mut jsi_runtime).ok_or("Not a bigint").unwrap();
    assert_eq!(bigint_value.to_string(&mut jsi_runtime).unwrap(), "123");
}

#[test]
fn test_jsvalue_as_bigint_none() {
    let mut jsi_runtime = JSRuntime::new();

    let value = JSValue::number_from_bits((42.0f64).to_bits());

    assert!(value.is_number());
    assert!(value.as_bigint(&mut jsi_runtime).is_none());
}

#[test]
fn test_jsfunction_no_conversion() {
    let mut jsi_runtime = JSRuntime::new();

    // Try to convert a non-function value to a function
    let number = JSValue::number_from_bits((42.0f64).to_bits());
    let func = number.as_function(&mut jsi_runtime);
    assert!(func.is_none());

    let string = JSValue::number_from_bits((42.0f64).to_bits());
    let func = string.as_function(&mut jsi_runtime);
    assert!(func.is_none());
}

#[test]
fn test_jsvalue_as_function_plain_object_is_not_callable() {
    let mut jsi_runtime = JSRuntime::new();

    let obj = jsi_runtime.create_object();
    let value = JSValue::Object { id: obj.id };

    assert!(value.is_object());
    assert!(value.as_function(&mut jsi_runtime).is_none());
}
