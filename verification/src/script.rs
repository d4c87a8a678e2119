//! Script-level helpers that need no live runtime: the pure bytecode
//! format predicate, its error-reporting form, and source-URL
//! defaulting for evaluation entry points.

use vstd::prelude::*;
use crate::error::Error;

verus! {

/// A buffer is acceptable as compiled bytecode when it starts with the
/// eight-byte little-endian magic number of the bytecode format.
pub open spec fn spec_is_bytecode(bytes: Seq<u8>) -> bool {
    bytes.len() >= 8 && bytes[0] == 0xc6u8 && bytes[1] == 0x1fu8 && bytes[2] == 0xbcu8
        && bytes[3] == 0x03u8 && bytes[4] == 0xc1u8 && bytes[5] == 0x03u8 && bytes[6] == 0x19u8
        && bytes[7] == 0x1fu8
}

/// Pure, total check that a buffer carries the bytecode format magic.
///
/// Requires no runtime and never fails; two calls on equal buffers always
/// agree because the result is fixed by the buffer contents alone.
pub fn is_bytecode(bytes: &[u8]) -> (r: bool)
    ensures
        r == spec_is_bytecode(bytes@),
{
    if bytes.len() < 8 {
        return false;
    }
    bytes[0] == 0xc6 && bytes[1] == 0x1f && bytes[2] == 0xbc && bytes[3] == 0x03 && bytes[4]
        == 0xc1 && bytes[5] == 0x03 && bytes[6] == 0x19 && bytes[7] == 0x1f
}

/// Classifying a buffer is deterministic: equal buffers classify equally.
pub proof fn lemma_is_bytecode_deterministic(b1: Seq<u8>, b2: Seq<u8>)
    requires
        b1 == b2,
    ensures
        spec_is_bytecode(b1) == spec_is_bytecode(b2),
{
}

/// A buffer too short to hold the format magic is never bytecode.
pub proof fn lemma_short_buffer_is_not_bytecode(bytes: Seq<u8>)
    requires
        bytes.len() < 8,
    ensures
        !spec_is_bytecode(bytes),
{
}

/// Screen a buffer before handing it to bytecode execution: `Ok`
/// exactly when the buffer carries the format magic, and an
/// `InvalidBytecode` error otherwise.
pub fn validate_bytecode(bytes: &[u8]) -> (r: Result<(), Error>)
    ensures
        r is Ok <==> spec_is_bytecode(bytes@),
        r matches Err(e) ==> e is InvalidBytecode && e.spec_message()
            == "buffer does not start with the bytecode format magic"@,
{
    if is_bytecode(bytes) {
        Ok(())
    } else {
        Err(Error::invalid_bytecode("buffer does not start with the bytecode format magic".to_owned()))
    }
}

/// The source URL to report for a unit of source: the caller's choice
/// when one was given, the entry point's fallback otherwise.
pub fn resolve_source_url<'a>(source_url: Option<&'a str>, fallback: &'a str) -> (r: &'a str)
    ensures
        source_url matches Some(u) ==> r@ == u@,
        source_url is None ==> r@ == fallback@,
{
    match source_url {
        Some(u) => u,
        None => fallback,
    }
}

} // verus!
