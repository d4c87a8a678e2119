//! The runtime context: sole owner of the heap tables that back every
//! string, object, array and bigint handle, and the sole gateway through
//! which handle operations execute.
//!
//! Exclusive mutable access is the concurrency discipline: every
//! operation on heap-resident data takes `&mut JSRuntime`, so the type
//! system rules out two in-flight operations on the same context.

use vstd::prelude::*;
use crate::jsi::array::JSArray;
use crate::jsi::bigint::JSBigInt;
use crate::jsi::object::JSObject;
use crate::jsi::propnameid::JSPropNameID;
use crate::jsi::string::JSString;
use crate::jsi::value::JSValue;

verus! {

/// A bigint held as sign and 64-bit magnitude, the full range reachable
/// from the signed and unsigned 64-bit constructors.
#[derive(Clone, Copy, Debug)]
pub struct BigIntValue {
    pub negative: bool,
    pub magnitude: u64,
}

/// One named property of an object.
#[derive(Debug)]
pub struct Property {
    pub key: String,
    pub value: JSValue,
}

/// The heap entry behind an object handle: its properties in insertion
/// order, and whether the object is callable.
#[derive(Debug)]
pub struct ObjectRecord {
    pub properties: Vec<Property>,
    pub callable: bool,
}

/// The heap entry behind an array handle: its element slots.
#[derive(Debug)]
pub struct ArrayRecord {
    pub elements: Vec<JSValue>,
}

/// One isolated JavaScript execution environment: the owner of every
/// heap entry that a handle can reference.
#[derive(Debug)]
pub struct JSRuntime {
    pub strings: Vec<String>,
    pub prop_names: Vec<String>,
    pub bigints: Vec<BigIntValue>,
    pub objects: Vec<ObjectRecord>,
    pub arrays: Vec<ArrayRecord>,
}

impl JSRuntime {
    /// A value is valid for this runtime when any handle it carries
    /// points inside the table for its kind.
    pub open spec fn valid_value(self, v: JSValue) -> bool {
        match v {
            JSValue::Str { id } => id < self.strings@.len(),
            JSValue::Object { id } => id < self.objects@.len(),
            JSValue::BigInt { id } => id < self.bigints@.len(),
            _ => true,
        }
    }

    /// Well-formedness: every value stored in an object property or an
    /// array slot is valid for this runtime, and no object holds the
    /// same property key twice.
    pub open spec fn wf(self) -> bool {
        &&& (forall|i: int, j: int|
            0 <= i < self.objects@.len() && 0 <= j < self.objects@[i].properties@.len()
                ==> self.valid_value(#[trigger] self.objects@[i].properties@[j].value))
        &&& (forall|i: int, j1: int, j2: int|
            0 <= i < self.objects@.len() && 0 <= j1 < j2 < self.objects@[i].properties@.len()
                ==> (#[trigger] self.objects@[i].properties@[j1].key@) != (
            #[trigger] self.objects@[i].properties@[j2].key@))
        &&& (forall|i: int, j: int|
            0 <= i < self.arrays@.len() && 0 <= j < self.arrays@[i].elements@.len()
                ==> self.valid_value(#[trigger] self.arrays@[i].elements@[j]))
    }

    /// The two runtimes agree on everything but the string table.
    pub open spec fn only_strings_differ(self, other: JSRuntime) -> bool {
        &&& self.prop_names@ == other.prop_names@
        &&& self.bigints@ == other.bigints@
        &&& self.objects@ == other.objects@
        &&& self.arrays@ == other.arrays@
    }

    /// The two runtimes agree on everything but the property-name table.
    pub open spec fn only_prop_names_differ(self, other: JSRuntime) -> bool {
        &&& self.strings@ == other.strings@
        &&& self.bigints@ == other.bigints@
        &&& self.objects@ == other.objects@
        &&& self.arrays@ == other.arrays@
    }

    /// The two runtimes agree on everything but the bigint table.
    pub open spec fn only_bigints_differ(self, other: JSRuntime) -> bool {
        &&& self.strings@ == other.strings@
        &&& self.prop_names@ == other.prop_names@
        &&& self.objects@ == other.objects@
        &&& self.arrays@ == other.arrays@
    }

    /// The two runtimes agree on everything but the object table.
    pub open spec fn only_objects_differ(self, other: JSRuntime) -> bool {
        &&& self.strings@ == other.strings@
        &&& self.prop_names@ == other.prop_names@
        &&& self.bigints@ == other.bigints@
        &&& self.arrays@ == other.arrays@
    }

    /// The two runtimes agree on everything but the array table.
    pub open spec fn only_arrays_differ(self, other: JSRuntime) -> bool {
        &&& self.strings@ == other.strings@
        &&& self.prop_names@ == other.prop_names@
        &&& self.bigints@ == other.bigints@
        &&& self.objects@ == other.objects@
    }

    /// Create a fresh, empty execution environment.
    pub fn new() -> (rt: JSRuntime)
        ensures
            rt.strings@.len() == 0,
            rt.prop_names@.len() == 0,
            rt.bigints@.len() == 0,
            rt.objects@.len() == 0,
            rt.arrays@.len() == 0,
            rt.wf(),
    {
        JSRuntime {
            strings: Vec::new(),
            prop_names: Vec::new(),
            bigints: Vec::new(),
            objects: Vec::new(),
            arrays: Vec::new(),
        }
    }

    /// Create an undefined value; needs no live runtime.
    pub fn create_undefined() -> (v: JSValue)
        ensures
            v == JSValue::Undefined,
    {
        JSValue::undefined()
    }

    /// Create a null value; needs no live runtime.
    pub fn create_null() -> (v: JSValue)
        ensures
            v == JSValue::Null,
    {
        JSValue::null()
    }

    /// Create a boolean value; needs no live runtime.
    pub fn create_bool(value: bool) -> (v: JSValue)
        ensures
            v == (JSValue::Bool { b: value }),
    {
        JSValue::bool(value)
    }

    /// Create a number value from the bit pattern of a 64-bit double;
    /// needs no live runtime.
    pub fn create_number_from_bits(bits: u64) -> (v: JSValue)
        ensures
            v == (JSValue::Number { bits }),
    {
        JSValue::number_from_bits(bits)
    }

    /// Create a string on this runtime's heap.
    pub fn create_string(&mut self, data: &str) -> (s: JSString)
        ensures
            final(self).strings@.len() == old(self).strings@.len() + 1,
            final(self).strings@[old(self).strings@.len() as int]@ == data@,
            forall|i: int|
                0 <= i < old(self).strings@.len() ==> final(self).strings@[i] == old(self).strings@[i],
            final(self).only_strings_differ(*old(self)),
            s.id == old(self).strings@.len(),
            old(self).wf() ==> final(self).wf(),
    {
        JSString::new(self, data)
    }

    /// Create an empty object on this runtime's heap.
    pub fn create_object(&mut self) -> (o: JSObject)
        ensures
            final(self).objects@.len() == old(self).objects@.len() + 1,
            final(self).objects@[old(self).objects@.len() as int].properties@.len() == 0,
            final(self).objects@[old(self).objects@.len() as int].callable == false,
            forall|i: int|
                0 <= i < old(self).objects@.len() ==> final(self).objects@[i] == old(self).objects@[i],
            final(self).only_objects_differ(*old(self)),
            o.id == old(self).objects@.len(),
            old(self).wf() ==> final(self).wf(),
    {
        JSObject::new(self)
    }

    /// Create an empty array on this runtime's heap.
    pub fn create_array_empty(&mut self) -> (a: JSArray)
        ensures
            final(self).arrays@.len() == old(self).arrays@.len() + 1,
            final(self).arrays@[old(self).arrays@.len() as int].elements@.len() == 0,
            forall|i: int|
                0 <= i < old(self).arrays@.len() ==> final(self).arrays@[i] == old(self).arrays@[i],
            final(self).only_arrays_differ(*old(self)),
            a.id == old(self).arrays@.len(),
            old(self).wf() ==> final(self).wf(),
    {
        JSArray::new(self, 0)
    }

    /// Create an array of the given length on this runtime's heap, every
    /// slot initially undefined.
    pub fn create_array(&mut self, length: usize) -> (a: JSArray)
        ensures
            final(self).arrays@.len() == old(self).arrays@.len() + 1,
            final(self).arrays@[old(self).arrays@.len() as int].elements@.len() == length,
            forall|j: int|
                0 <= j < length ==> final(self).arrays@[old(self).arrays@.len() as int].elements@[j]
                    == JSValue::Undefined,
            forall|i: int|
                0 <= i < old(self).arrays@.len() ==> final(self).arrays@[i] == old(self).arrays@[i],
            final(self).only_arrays_differ(*old(self)),
            a.id == old(self).arrays@.len(),
            old(self).wf() ==> final(self).wf(),
    {
        JSArray::new(self, length)
    }

    /// Create a property key on this runtime's heap.
    pub fn create_prop_name_id(&mut self, name: &str) -> (p: JSPropNameID)
        ensures
            final(self).prop_names@.len() == old(self).prop_names@.len() + 1,
            final(self).prop_names@[old(self).prop_names@.len() as int]@ == name@,
            forall|i: int|
                0 <= i < old(self).prop_names@.len() ==> final(self).prop_names@[i] == old(self).prop_names@[i],
            final(self).only_prop_names_differ(*old(self)),
            p.id == old(self).prop_names@.len(),
            old(self).wf() ==> final(self).wf(),
    {
        JSPropNameID::new(self, name)
    }

    /// Create a bigint on this runtime's heap from a signed or unsigned
    /// 64-bit integer.
    pub fn create_bigint<T: IntoJSIBigInt>(&mut self, value: T) -> (b: JSBigInt)
        ensures
            final(self).bigints@.len() == old(self).bigints@.len() + 1,
            final(self).bigints@[old(self).bigints@.len() as int].negative
                == value.spec_negative(),
            final(self).bigints@[old(self).bigints@.len() as int].magnitude as nat
                == value.spec_magnitude(),
            forall|i: int|
                0 <= i < old(self).bigints@.len() ==> final(self).bigints@[i] == old(self).bigints@[i],
            final(self).only_bigints_differ(*old(self)),
            b.id == old(self).bigints@.len(),
            old(self).wf() ==> final(self).wf(),
    {
        value.create_jsi_bigint(self)
    }
}

/// Integers that can seed a bigint: the signed and unsigned 64-bit types.
pub trait IntoJSIBigInt: Sized {
    /// Whether the seeded bigint is negative.
    spec fn spec_negative(self) -> bool;

    /// The absolute value of the seeded bigint.
    spec fn spec_magnitude(self) -> nat;

    /// Create a bigint holding this integer on the runtime's heap.
    fn create_jsi_bigint(self, runtime: &mut JSRuntime) -> (b: JSBigInt)
        ensures
            final(runtime).bigints@.len() == old(runtime).bigints@.len() + 1,
            final(runtime).bigints@[old(runtime).bigints@.len() as int].negative
                == self.spec_negative(),
            final(runtime).bigints@[old(runtime).bigints@.len() as int].magnitude as nat
                == self.spec_magnitude(),
            forall|i: int|
                0 <= i < old(runtime).bigints@.len() ==> final(runtime).bigints@[i] == old(runtime).bigints@[i],
            final(runtime).only_bigints_differ(*old(runtime)),
            b.id == old(runtime).bigints@.len(),
            old(runtime).wf() ==> final(runtime).wf(),
    ;
}

impl IntoJSIBigInt for i64 {
    open spec fn spec_negative(self) -> bool {
        self < 0
    }

    open spec fn spec_magnitude(self) -> nat {
        if self >= 0 {
            self as nat
        } else {
            (-(self as int)) as nat
        }
    }

    fn create_jsi_bigint(self, runtime: &mut JSRuntime) -> (b: JSBigInt) {
        JSBigInt::from_i64(runtime, self)
    }
}

impl IntoJSIBigInt for u64 {
    open spec fn spec_negative(self) -> bool {
        false
    }

    open spec fn spec_magnitude(self) -> nat {
        self as nat
    }

    fn create_jsi_bigint(self, runtime: &mut JSRuntime) -> (b: JSBigInt) {
        JSBigInt::from_u64(runtime, self)
    }
}

/// Growing the string, property-name or bigint tables while leaving the
/// object and array tables alone preserves well-formedness.
pub proof fn lemma_wf_grow(a: JSRuntime, b: JSRuntime)
    requires
        a.wf(),
        a.strings@.len() <= b.strings@.len(),
        a.bigints@.len() <= b.bigints@.len(),
        b.objects@ == a.objects@,
        b.arrays@ == a.arrays@,
    ensures
        b.wf(),
{
    assert forall|i: int, j: int|
        0 <= i < b.objects@.len() && 0 <= j < b.objects@[i].properties@.len() implies b.valid_value(
        #[trigger] b.objects@[i].properties@[j].value,
    ) by {
        assert(a.valid_value(a.objects@[i].properties@[j].value));
    }
    assert forall|i: int, j: int|
        0 <= i < b.arrays@.len() && 0 <= j < b.arrays@[i].elements@.len() implies b.valid_value(
        #[trigger] b.arrays@[i].elements@[j],
    ) by {
        assert(a.valid_value(a.arrays@[i].elements@[j]));
    }
}

} // verus!
