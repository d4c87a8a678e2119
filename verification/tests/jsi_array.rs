use hermes_engine::jsi::JSArray;
use hermes_engine::jsi::JSRuntime;
use hermes_engine::jsi::JSValue;

#[test]
fn test_jsarray_new() {
    let mut jsi_runtime = JSRuntime::new();

    let array = JSArray::new(&mut jsi_runtime, 5);

    assert_eq!(array.len(&mut jsi_runtime), 5);
}

#[test]
fn test_jsarray_get_set() {
    let mut jsi_runtime = JSRuntime::new();

    let array = JSArray::new(&mut jsi_runtime, 3);

    let val1 = JSValue::number_from_bits((42.0f64).to_bits());
    let val2 = JSValue::bool(true);
    let val3 = JSValue::null();

    array.set(&mut jsi_runtime, 0, &val1).unwrap();
    array.set(&mut jsi_runtime, 1, &val2).unwrap();
    array.set(&mut jsi_runtime, 2, &val3).unwrap();

    let retrieved1 = array.get(&mut jsi_runtime, 0);
    let retrieved2 = array.get(&mut jsi_runtime, 1);
    let retrieved3 = array.get(&mut jsi_runtime, 2);

    assert!(retrieved1.is_number());
    assert_eq!(retrieved1.as_number_bits(), (42.0f64).to_bits());
    assert!(retrieved2.is_bool());
    assert_eq!(retrieved2.as_bool(), true);
    assert!(retrieved3.is_null());
}

#[test]
fn test_jsarray_length() {
    let mut jsi_runtime = JSRuntime::new();

    let array = JSArray::new(&mut jsi_runtime, 5);

    assert_eq!(array.len(&mut jsi_runtime), 5);
    assert!(!array.is_empty(&mut jsi_runtime));

    let empty_array = JSArray::new(&mut jsi_runtime, 0);
    assert!(empty_array.is_empty(&mut jsi_runtime));
}

#[test]
fn test_jsarray_out_of_bounds() {
    let mut jsi_runtime = JSRuntime::new();

    let array = JSArray::new(&mut jsi_runtime, 3);

    let value = array.get(&mut jsi_runtime, 10);
    assert!(value.is_undefined());

    let val = JSValue::number_from_bits((42.0f64).to_bits());
    let result = array.set(&mut jsi_runtime, 10, &val);
    assert!(result.is_err());
}

#[test]
fn test_jsarray_bounds_asymmetry_at_length() {
    let mut jsi_runtime = JSRuntime::new();

    let array = JSArray::new(&mut jsi_runtime, 4);
    let val = JSValue::bool(false);

    // Exactly at the length: the read observes undefined, the write is an
    // error carrying the out-of-bounds message.
    let read = array.get(&mut jsi_runtime, 4);
    assert!(read.is_undefined());
    let write = array.set(&mut jsi_runtime, 4, &val);
    assert_eq!(
        write.unwrap_err(),
        "Index 4 out of bounds for array of length 4"
    );
}

#[test]
fn test_jsarray_new_slots_are_undefined() {
    let mut jsi_runtime = JSRuntime::new();

    let array = JSArray::new(&mut jsi_runtime, 2);
    assert!(array.get(&mut jsi_runtime, 0).is_undefined());
    assert!(array.get(&mut jsi_runtime, 1).is_undefined());
}
