use hermes_engine::Error;
use hermes_engine::script::is_bytecode;
use hermes_engine::script::resolve_source_url;
use hermes_engine::script::validate_bytecode;

const MAGIC: [u8; 8] = [0xc6, 0x1f, 0xbc, 0x03, 0xc1, 0x03, 0x19, 0x1f];

#[test]
fn test_is_bytecode_accepts_magic_prefix() {
    let mut buffer = MAGIC.to_vec();
    buffer.extend_from_slice(&[0u8; 16]);
    assert!(is_bytecode(&buffer));
    assert!(is_bytecode(&MAGIC));
}

#[test]
fn test_is_bytecode_rejects_short_buffers() {
    assert!(!is_bytecode(&[]));
    assert!(!is_bytecode(&MAGIC[..7]));
}

#[test]
fn test_is_bytecode_rejects_garbage() {
    assert!(!is_bytecode(b"this is invalid javascript"));
    let mut almost = MAGIC.to_vec();
    almost[3] = 0x04;
    assert!(!is_bytecode(&almost));
}

#[test]
fn test_is_bytecode_is_deterministic() {
    let buffer = b"arbitrary non-bytecode bytes".to_vec();
    let first = is_bytecode(&buffer);
    let second = is_bytecode(&buffer);
    assert_eq!(first, second);
    assert!(!first);
}

#[test]
fn test_validate_bytecode_reports_invalid() {
    assert!(validate_bytecode(&MAGIC).is_ok());

    let err = validate_bytecode(b"garbage").unwrap_err();
    assert!(matches!(err, Error::InvalidBytecode(_)));
    assert_eq!(
        err.message(),
        "buffer does not start with the bytecode format magic"
    );
}

#[test]
fn test_resolve_source_url() {
    assert_eq!(resolve_source_url(Some("calc.js"), "eval"), "calc.js");
    assert_eq!(resolve_source_url(None, "eval"), "eval");
    assert_eq!(resolve_source_url(None, "bundle"), "bundle");
    assert_eq!(resolve_source_url(None, "prepared"), "prepared");
}
