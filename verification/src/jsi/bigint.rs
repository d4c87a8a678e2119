//! BigInt handles: sign-and-magnitude 64-bit integers on the runtime's
//! heap, readable as their canonical string in any radix from 2 to 36.

use vstd::prelude::*;
use crate::jsi::error::Error;
use crate::jsi::runtime::BigIntValue;
use crate::jsi::runtime::JSRuntime;
use crate::jsi::string::JSString;
use crate::text::format_radix;
use crate::text::spec_radix_string;

verus! {

/// A handle to a bigint on the runtime's heap.
#[derive(Debug)]
pub struct JSBigInt {
    pub id: usize,
}

impl JSBigInt {
    /// Create a new bigint from a signed 64-bit integer; the full range
    /// is accepted, including `i64::MIN`.
    pub fn from_i64(runtime: &mut JSRuntime, value: i64) -> (b: JSBigInt)
        ensures
            final(runtime).bigints@.len() == old(runtime).bigints@.len() + 1,
            final(runtime).bigints@[old(runtime).bigints@.len() as int].negative == (value < 0),
            final(runtime).bigints@[old(runtime).bigints@.len() as int].magnitude as int == (
            if value >= 0 {
                value as int
            } else {
                -(value as int)
            }),
            forall|i: int|
                0 <= i < old(runtime).bigints@.len() ==> final(runtime).bigints@[i] == old(runtime).bigints@[i],
            final(runtime).only_bigints_differ(*old(runtime)),
            b.id == old(runtime).bigints@.len(),
            old(runtime).wf() ==> final(runtime).wf(),
    {
        let magnitude: u64 = if value >= 0 {
            value as u64
        } else if value == i64::MIN {
            0x8000_0000_0000_0000u64
        } else {
            (-value) as u64
        };
        let id = runtime.bigints.len();
        runtime.bigints.push(BigIntValue { negative: value < 0, magnitude });
        proof {
            if old(runtime).wf() {
                crate::jsi::runtime::lemma_wf_grow(*old(runtime), *runtime);
            }
        }
        JSBigInt { id }
    }

    /// Create a new bigint from an unsigned 64-bit integer; the full
    /// range is accepted, including `u64::MAX`.
    pub fn from_u64(runtime: &mut JSRuntime, value: u64) -> (b: JSBigInt)
        ensures
            final(runtime).bigints@.len() == old(runtime).bigints@.len() + 1,
            final(runtime).bigints@[old(runtime).bigints@.len() as int].negative == false,
            final(runtime).bigints@[old(runtime).bigints@.len() as int].magnitude == value,
            forall|i: int|
                0 <= i < old(runtime).bigints@.len() ==> final(runtime).bigints@[i] == old(runtime).bigints@[i],
            final(runtime).only_bigints_differ(*old(runtime)),
            b.id == old(runtime).bigints@.len(),
            old(runtime).wf() ==> final(runtime).wf(),
    {
        let id = runtime.bigints.len();
        runtime.bigints.push(BigIntValue { negative: false, magnitude: value });
        proof {
            if old(runtime).wf() {
                crate::jsi::runtime::lemma_wf_grow(*old(runtime), *runtime);
            }
        }
        JSBigInt { id }
    }

    /// The canonical representation of a stored bigint in the given
    /// radix: minimal lowercase digits with a `-` prefix when negative.
    pub open spec fn spec_string(b: BigIntValue, radix: int) -> Seq<char> {
        spec_radix_string(b.negative, b.magnitude as nat, radix as nat)
    }

    /// Render the bigint in the given radix, as a new string on the
    /// runtime's heap.
    ///
    /// Succeeds exactly when the radix lies in `[2, 36]`; any other
    /// radix yields an error and leaves the runtime unchanged.
    pub fn as_string_opt(&self, runtime: &mut JSRuntime, radix: i32) -> (r: Result<
        JSString,
        Error,
    >)
        requires
            self.id < old(runtime).bigints@.len(),
        ensures
            r is Ok <==> 2 <= radix <= 36,
            r matches Ok(s) ==> {
                &&& final(runtime).strings@.len() == old(runtime).strings@.len() + 1
                &&& final(runtime).strings@[old(runtime).strings@.len() as int]@
                    == JSBigInt::spec_string(
                    old(runtime).bigints@[self.id as int],
                    radix as int,
                )
                &&& (forall|i: int|
                    0 <= i < old(runtime).strings@.len() ==> final(runtime).strings@[i] == old(runtime).strings@[i])
                &&& final(runtime).only_strings_differ(*old(runtime))
                &&& s.id == old(runtime).strings@.len()
                &&& (old(runtime).wf() ==> final(runtime).wf())
            },
            r matches Err(e) ==> {
                &&& *final(runtime) == *old(runtime)
                &&& e.0@ == "invalid radix: must be between 2 and 36"@
            },
    {
        if radix < 2 || radix > 36 {
            return Err(Error::new("invalid radix: must be between 2 and 36".to_owned()));
        }
        let b = BigIntValue {
            negative: runtime.bigints[self.id].negative,
            magnitude: runtime.bigints[self.id].magnitude,
        };
        let text = format_radix(b.negative, b.magnitude, radix as u32);
        let id = runtime.strings.len();
        runtime.strings.push(text);
        proof {
            if old(runtime).wf() {
                crate::jsi::runtime::lemma_wf_grow(*old(runtime), *runtime);
            }
        }
        Ok(JSString { id })
    }

    /// Render the bigint in decimal, as a new string on the runtime's
    /// heap.
    pub fn as_string(&self, runtime: &mut JSRuntime) -> (r: Result<JSString, Error>)
        requires
            self.id < old(runtime).bigints@.len(),
        ensures
            r is Ok,
            r matches Ok(s) ==> {
                &&& final(runtime).strings@.len() == old(runtime).strings@.len() + 1
                &&& final(runtime).strings@[old(runtime).strings@.len() as int]@
                    == JSBigInt::spec_string(old(runtime).bigints@[self.id as int], 10)
                &&& (forall|i: int|
                    0 <= i < old(runtime).strings@.len() ==> final(runtime).strings@[i] == old(runtime).strings@[i])
                &&& final(runtime).only_strings_differ(*old(runtime))
                &&& s.id == old(runtime).strings@.len()
                &&& (old(runtime).wf() ==> final(runtime).wf())
            },
    {
        self.as_string_opt(runtime, 10)
    }

    /// Render the bigint in decimal directly as host text.
    pub fn to_string(&self, runtime: &mut JSRuntime) -> (r: Result<String, Error>)
        requires
            self.id < old(runtime).bigints@.len(),
        ensures
            r is Ok,
            r matches Ok(text) ==> {
                &&& text@ == JSBigInt::spec_string(old(runtime).bigints@[self.id as int], 10)
                &&& final(runtime).strings@.len() == old(runtime).strings@.len() + 1
                &&& final(runtime).only_strings_differ(*old(runtime))
                &&& (old(runtime).wf() ==> final(runtime).wf())
            },
    {
        let js_string = match self.as_string(runtime) {
            Ok(s) => s,
            Err(e) => {
                return Err(e);
            },
        };
        Ok(js_string.value(runtime))
    }
}

} // verus!
