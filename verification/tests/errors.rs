use hermes_engine::Error;
use hermes_engine::jsi;

#[test]
fn test_error_constructors_and_message() {
    let e = Error::evaluation("script threw".to_string());
    assert!(matches!(e, Error::EvaluationError(_)));
    assert_eq!(e.message(), "script threw");

    let e = Error::compilation("cannot compile".to_string());
    assert!(matches!(e, Error::CompilationError(_)));
    assert_eq!(e.message(), "cannot compile");

    let e = Error::invalid_bytecode("bad buffer".to_string());
    assert!(matches!(e, Error::InvalidBytecode(_)));
    assert_eq!(e.message(), "bad buffer");

    let e = Error::preparation("cannot prepare".to_string());
    assert!(matches!(e, Error::PreparationError(_)));
    assert_eq!(e.message(), "cannot prepare");

    let e = Error::runtime("cannot start".to_string());
    assert!(matches!(e, Error::RuntimeError(_)));
    assert_eq!(e.message(), "cannot start");

    let e = Error::internal("unknown".to_string());
    assert!(matches!(e, Error::InternalError(_)));
    assert_eq!(e.message(), "unknown");
}

#[test]
fn test_error_contains() {
    let e = Error::evaluation("JSError: Error: boom at line 3".to_string());
    assert!(e.contains("boom"));
    assert!(e.contains("JSError: Error: boom at line 3"));
    assert!(e.contains(""));
    assert!(!e.contains("quiet"));
    assert!(!e.contains("boom at line 4"));
}

#[test]
fn test_error_display_string() {
    let e = Error::evaluation("boom".to_string());
    assert_eq!(e.display_string(), "JavaScript evaluation error: boom");

    let e = Error::compilation("boom".to_string());
    assert_eq!(e.display_string(), "JavaScript compilation error: boom");

    let e = Error::invalid_bytecode("boom".to_string());
    assert_eq!(e.display_string(), "Invalid bytecode: boom");

    let e = Error::preparation("boom".to_string());
    assert_eq!(e.display_string(), "JavaScript preparation error: boom");

    let e = Error::runtime("boom".to_string());
    assert_eq!(e.display_string(), "Runtime error: boom");

    let e = Error::internal("boom".to_string());
    assert_eq!(e.display_string(), "Internal error: boom");
}

#[test]
fn test_classify_thrown_js_exception() {
    let e = Error::from_exception_message("JSError: Error: boom".to_string());
    assert!(matches!(e, Error::EvaluationError(_)));
    assert!(e.contains("boom"));
}

#[test]
fn test_classify_compile_failures_as_evaluation() {
    for msg in [
        "Compiling JS failed: 1:6:invalid statement",
        "compilation aborted",
        "Failed to compile the bundle",
        "unexpected token: expected ;",
    ] {
        let e = Error::from_exception_message(msg.to_string());
        assert!(matches!(e, Error::EvaluationError(_)), "{}", msg);
    }
}

#[test]
fn test_classify_bytecode_failures() {
    let e = Error::from_exception_message("bytecode stream did not verify".to_string());
    assert!(matches!(e, Error::InvalidBytecode(_)));

    let e = Error::from_exception_message("Invalid bytecode".to_string());
    assert!(matches!(e, Error::InvalidBytecode(_)));
}

#[test]
fn test_classify_anything_else_as_internal() {
    let e = Error::from_exception_message("out of memory".to_string());
    assert!(matches!(e, Error::InternalError(_)));
    assert_eq!(e.message(), "out of memory");
}

#[test]
fn test_classify_js_error_wins_over_bytecode() {
    // A thrown JS exception mentioning bytecode still classifies as an
    // evaluation error: the patterns are checked in order.
    let e = Error::from_exception_message("JSError: bad bytecode string".to_string());
    assert!(matches!(e, Error::EvaluationError(_)));
}

#[test]
fn test_compilation_outcome() {
    let ok: Result<u32, String> = Ok(7);
    assert_eq!(Error::compilation_outcome(ok).unwrap(), 7);

    let failed: Result<u32, String> = Err("1:1:invalid statement".to_string());
    let e = Error::compilation_outcome(failed).unwrap_err();
    assert!(matches!(e, Error::CompilationError(_)));
    assert_eq!(e.message(), "1:1:invalid statement");
}

#[test]
fn test_preparation_outcome() {
    let ok: Result<u32, String> = Ok(7);
    assert_eq!(Error::preparation_outcome(ok).unwrap(), 7);

    let failed: Result<u32, String> = Err("1:6:';' expected".to_string());
    let e = Error::preparation_outcome(failed).unwrap_err();
    assert!(matches!(e, Error::PreparationError(_)));
    assert_eq!(e.message(), "1:6:';' expected");
}

#[test]
fn test_jsi_error_new_and_message() {
    let e = jsi::Error::new("something odd".to_string());
    assert_eq!(e.message(), "something odd");
}
