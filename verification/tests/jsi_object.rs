use hermes_engine::jsi::JSObject;
use hermes_engine::jsi::JSRuntime;
use hermes_engine::jsi::JSValue;

#[test]
fn test_jsobject_new() {
    let mut jsi_runtime = JSRuntime::new();

    let obj = JSObject::new(&mut jsi_runtime);

    assert!(!obj.has(&mut jsi_runtime, "anything"));
}

#[test]
fn test_jsobject_get_set_property() {
    let mut jsi_runtime = JSRuntime::new();

    let obj = JSObject::new(&mut jsi_runtime);

    // Set a number property
    let value = JSValue::number_from_bits((42.0f64).to_bits());
    obj.set(&mut jsi_runtime, "answer", &value);

    // Get the property back
    let result = obj.get(&mut jsi_runtime, "answer");
    assert!(result.is_number());
    assert_eq!(result.as_number_bits(), (42.0f64).to_bits());
}

#[test]
fn test_jsobject_get_undefined_property() {
    let mut jsi_runtime = JSRuntime::new();

    let obj = JSObject::new(&mut jsi_runtime);

    // Get a non-existent property should return undefined
    let result = obj.get(&mut jsi_runtime, "nonexistent");
    assert!(result.is_undefined());
}

#[test]
fn test_jsobject_has_property() {
    let mut jsi_runtime = JSRuntime::new();

    let obj = JSObject::new(&mut jsi_runtime);

    // Initially the property doesn't exist
    assert!(!obj.has(&mut jsi_runtime, "foo"));

    // Set the property
    let value = JSValue::bool(true);
    obj.set(&mut jsi_runtime, "foo", &value);

    // Now it exists
    assert!(obj.has(&mut jsi_runtime, "foo"));
}

#[test]
fn test_jsobject_delete_property() {
    let mut jsi_runtime = JSRuntime::new();

    let obj = JSObject::new(&mut jsi_runtime);

    // Set a property
    let value = JSValue::number_from_bits((123.0f64).to_bits());
    obj.set(&mut jsi_runtime, "temp", &value);
    assert!(obj.has(&mut jsi_runtime, "temp"));

    // Delete it
    obj.delete(&mut jsi_runtime, "temp");

    // The property value should now be undefined
    let result = obj.get(&mut jsi_runtime, "temp");
    assert!(result.is_undefined());
}

#[test]
fn test_jsobject_get_property_names() {
    let mut jsi_runtime = JSRuntime::new();

    let obj = JSObject::new(&mut jsi_runtime);

    // Set some properties
    obj.set(
        &mut jsi_runtime,
        "a",
        &JSValue::number_from_bits((1.0f64).to_bits()),
    );
    obj.set(
        &mut jsi_runtime,
        "b",
        &JSValue::number_from_bits((2.0f64).to_bits()),
    );
    obj.set(
        &mut jsi_runtime,
        "c",
        &JSValue::number_from_bits((3.0f64).to_bits()),
    );

    // Get property names
    let names = obj.get_property_names(&mut jsi_runtime);
    assert_eq!(names.len(&mut jsi_runtime), 3);
}

#[test]
fn test_jsobject_set_multiple_types() {
    let mut jsi_runtime = JSRuntime::new();

    let obj = JSObject::new(&mut jsi_runtime);

    // Set various property types
    obj.set(
        &mut jsi_runtime,
        "num",
        &JSValue::number_from_bits((3.14f64).to_bits()),
    );
    obj.set(&mut jsi_runtime, "bool", &JSValue::bool(true));
    obj.set(&mut jsi_runtime, "nil", &JSValue::null());
    obj.set(&mut jsi_runtime, "undef", &JSValue::undefined());

    // Verify each type
    assert!(obj.get(&mut jsi_runtime, "num").is_number());
    assert!(obj.get(&mut jsi_runtime, "bool").is_bool());
    assert!(obj.get(&mut jsi_runtime, "nil").is_null());
    assert!(obj.get(&mut jsi_runtime, "undef").is_undefined());
}

#[test]
fn test_jsobject_set_overwrites_in_place() {
    let mut jsi_runtime = JSRuntime::new();

    let obj = JSObject::new(&mut jsi_runtime);
    obj.set(&mut jsi_runtime, "k", &JSValue::bool(false));
    obj.set(&mut jsi_runtime, "k", &JSValue::bool(true));

    let got = obj.get(&mut jsi_runtime, "k");
    assert!(got.is_bool());
    assert!(got.as_bool());
    let names = obj.get_property_names(&mut jsi_runtime);
    assert_eq!(names.len(&mut jsi_runtime), 1);
}

#[test]
fn test_jsobject_delete_absent_is_not_an_error() {
    let mut jsi_runtime = JSRuntime::new();

    let obj = JSObject::new(&mut jsi_runtime);
    obj.delete(&mut jsi_runtime, "missing");
    obj.delete(&mut jsi_runtime, "missing");
    assert!(obj.get(&mut jsi_runtime, "missing").is_undefined());
}

#[test]
fn test_jsobject_property_names_are_the_keys() {
    let mut jsi_runtime = JSRuntime::new();

    let obj = JSObject::new(&mut jsi_runtime);
    obj.set(&mut jsi_runtime, "first", &JSValue::null());
    obj.set(&mut jsi_runtime, "second", &JSValue::null());

    let names = obj.get_property_names(&mut jsi_runtime);
    let n0 = names.get(&mut jsi_runtime, 0);
    let n1 = names.get(&mut jsi_runtime, 1);
    let s0 = n0.as_string(&mut jsi_runtime).unwrap();
    let s1 = n1.as_string(&mut jsi_runtime).unwrap();
    assert_eq!(s0.value(&mut jsi_runtime), "first");
    assert_eq!(s1.value(&mut jsi_runtime), "second");
}
