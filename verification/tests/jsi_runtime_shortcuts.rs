use hermes_engine::jsi::JSRuntime;

#[test]
fn test_jsruntime_create_undefined() {
    let value = JSRuntime::create_undefined();

    assert!(value.is_undefined());
}

#[test]
fn test_jsruntime_create_null() {
    let value = JSRuntime::create_null();

    assert!(value.is_null());
}

#[test]
fn test_jsruntime_create_bool() {
    let value_true = JSRuntime::create_bool(true);
    let value_false = JSRuntime::create_bool(false);

    assert!(value_true.is_bool());
    assert!(value_false.is_bool());
}

#[test]
fn test_jsruntime_create_number() {
    let value = JSRuntime::create_number_from_bits((42.5f64).to_bits());

    assert!(value.is_number());
}

#[test]
fn test_jsruntime_create_string() {
    let mut jsi_runtime = JSRuntime::new();

    let string = jsi_runtime.create_string("Hello, World!");

    assert_eq!(string.value(&mut jsi_runtime), "Hello, World!");
}

#[test]
fn test_jsruntime_create_object() {
    let mut jsi_runtime = JSRuntime::new();

    let obj = jsi_runtime.create_object();

    assert!(!obj.has(&mut jsi_runtime, "anything"));
}

#[test]
fn test_jsruntime_create_array_empty() {
    let mut jsi_runtime = JSRuntime::new();

    let array = jsi_runtime.create_array_empty();

    assert!(array.is_empty(&mut jsi_runtime));
}

#[test]
fn test_jsruntime_create_array() {
    let mut jsi_runtime = JSRuntime::new();

    let array = jsi_runtime.create_array(5);

    assert_eq!(array.len(&mut jsi_runtime), 5);
}

#[test]
fn test_jsruntime_create_prop_name_id() {
    let mut jsi_runtime = JSRuntime::new();

    let prop_id = jsi_runtime.create_prop_name_id("foo");

    assert_eq!(prop_id.value(&mut jsi_runtime), "foo");
}

#[test]
fn test_jsruntime_create_bigint_i64() {
    let mut jsi_runtime = JSRuntime::new();

    let bigint = jsi_runtime.create_bigint::<i64>(-9223372036854775808);

    assert_eq!(
        bigint.to_string(&mut jsi_runtime).unwrap(),
        "-9223372036854775808"
    );
}

#[test]
fn test_jsruntime_create_bigint_u64() {
    let mut jsi_runtime = JSRuntime::new();

    let bigint = jsi_runtime.create_bigint::<u64>(18446744073709551615);

    assert_eq!(
        bigint.to_string(&mut jsi_runtime).unwrap(),
        "18446744073709551615"
    );
}
