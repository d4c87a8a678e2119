use hermes_engine::jsi::JSBigInt;
use hermes_engine::jsi::JSRuntime;

#[test]
fn test_jsbigint_from_i64() {
    let mut jsi_runtime = JSRuntime::new();

    let bigint = jsi_runtime.create_bigint::<i64>(-9223372036854775808);

    let value = bigint.to_string(&mut jsi_runtime).unwrap();
    assert_eq!(value, "-9223372036854775808");
}

#[test]
fn test_jsbigint_from_u64() {
    let mut jsi_runtime = JSRuntime::new();

    let bigint = jsi_runtime.create_bigint::<u64>(18446744073709551615);

    let value = bigint.to_string(&mut jsi_runtime).unwrap();
    assert_eq!(value, "18446744073709551615");
}

#[test]
fn test_jsbigint_as_string_default_radix() {
    let mut jsi_runtime = JSRuntime::new();

    let bigint = jsi_runtime.create_bigint::<i64>(42);
    let result = bigint.as_string(&mut jsi_runtime).unwrap();
    let value = result.value(&mut jsi_runtime);

    assert_eq!(value, "42");
}

#[test]
fn test_jsbigint_as_string_negative() {
    let mut jsi_runtime = JSRuntime::new();

    let bigint = jsi_runtime.create_bigint::<i64>(-123456789123456789);
    let result = bigint.as_string(&mut jsi_runtime).unwrap();
    let value = result.value(&mut jsi_runtime);

    assert_eq!(value, "-123456789123456789");
}

#[test]
fn test_jsbigint_as_string_radix_2() {
    let mut jsi_runtime = JSRuntime::new();

    let bigint = jsi_runtime.create_bigint::<i64>(42);
    let result = bigint.as_string_opt(&mut jsi_runtime, 2).unwrap();
    let value = result.value(&mut jsi_runtime);

    assert_eq!(value, "101010");
}

#[test]
fn test_jsbigint_as_string_radix_16() {
    let mut jsi_runtime = JSRuntime::new();

    let bigint = jsi_runtime.create_bigint::<i64>(255);
    let result = bigint.as_string_opt(&mut jsi_runtime, 16).unwrap();
    let value = result.value(&mut jsi_runtime);

    assert_eq!(value, "ff");
}

#[test]
fn test_jsbigint_as_string_radix_32() {
    let mut jsi_runtime = JSRuntime::new();

    let bigint = jsi_runtime.create_bigint::<i64>(-123456789123456789);
    let result = bigint.as_string_opt(&mut jsi_runtime, 32).unwrap();
    let value = result.value(&mut jsi_runtime);

    assert_eq!(value, "-3dkr9emd0nol");
}

#[test]
fn test_jsbigint_as_string_radix_36() {
    let mut jsi_runtime = JSRuntime::new();

    let bigint = jsi_runtime.create_bigint::<i64>(1234567890);
    let result = bigint.as_string_opt(&mut jsi_runtime, 36).unwrap();
    let value = result.value(&mut jsi_runtime);

    assert_eq!(value, "kf12oi");
}

#[test]
fn test_jsbigint_as_string_invalid_radix_too_small() {
    let mut jsi_runtime = JSRuntime::new();

    let bigint = jsi_runtime.create_bigint::<i64>(42);
    let result = bigint.as_string_opt(&mut jsi_runtime, 1);

    assert!(result.is_err());
}

#[test]
fn test_jsbigint_as_string_invalid_radix_too_large() {
    let mut jsi_runtime = JSRuntime::new();

    let bigint = jsi_runtime.create_bigint::<i64>(42);
    let result = bigint.as_string_opt(&mut jsi_runtime, 37);

    assert!(result.is_err());
}

#[test]
fn test_jsbigint_as_string_large_positive() {
    let mut jsi_runtime = JSRuntime::new();

    let bigint = jsi_runtime.create_bigint::<u64>(18446744073709551615);
    let result = bigint.as_string(&mut jsi_runtime).unwrap();
    let value = result.value(&mut jsi_runtime);

    assert_eq!(value, "18446744073709551615");
}

#[test]
fn test_jsbigint_to_string() {
    let mut jsi_runtime = JSRuntime::new();

    let bigint = jsi_runtime.create_bigint::<i64>(-123456789);
    let value = bigint.to_string(&mut jsi_runtime).unwrap();

    assert_eq!(value, "-123456789");
}

#[test]
fn test_jsbigint_zero() {
    let mut jsi_runtime = JSRuntime::new();

    let bigint = JSBigInt::from_i64(&mut jsi_runtime, 0);
    let value = bigint.to_string(&mut jsi_runtime).unwrap();

    assert_eq!(value, "0");
}

#[test]
fn test_jsbigint_radix_bounds_accepted() {
    let mut jsi_runtime = JSRuntime::new();

    let bigint = JSBigInt::from_u64(&mut jsi_runtime, 7);
    let low = bigint.as_string_opt(&mut jsi_runtime, 2).unwrap();
    assert_eq!(low.value(&mut jsi_runtime), "111");
    let high = bigint.as_string_opt(&mut jsi_runtime, 36).unwrap();
    assert_eq!(high.value(&mut jsi_runtime), "7");
}
