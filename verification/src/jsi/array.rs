//! Array handles: fixed-length element slots on the runtime's heap.
//!
//! Reads past the end yield `undefined`, matching JavaScript read
//! semantics for sparse-capable arrays; writes past the end are an
//! error, because silently succeeding would require resizing semantics
//! this layer deliberately does not implement.

use vstd::prelude::*;
use crate::jsi::runtime::ArrayRecord;
use crate::jsi::runtime::JSRuntime;
use crate::jsi::value::JSValue;
use crate::text::format_radix;
use crate::text::spec_radix_string;

verus! {

/// A handle to an array on the runtime's heap.
#[derive(Debug)]
pub struct JSArray {
    pub id: usize,
}

/// The message reported when writing past the end of an array.
pub open spec fn spec_out_of_bounds_message(index: nat, len: nat) -> Seq<char> {
    "Index "@ + spec_radix_string(false, index, 10) + " out of bounds for array of length "@
        + spec_radix_string(false, len, 10)
}

/// What a read at `index` observes: the stored element in range,
/// `undefined` past the end.
pub open spec fn spec_array_get(elements: Seq<JSValue>, index: int) -> JSValue {
    if 0 <= index < elements.len() {
        elements[index]
    } else {
        JSValue::Undefined
    }
}

/// Whether a write at `index` is accepted: only strictly inside the
/// array's length.
pub open spec fn spec_array_set_in_bounds(elements: Seq<JSValue>, index: int) -> bool {
    0 <= index < elements.len()
}

/// Bounds asymmetry: at the array's length, and at every index past it,
/// a read observes `undefined` without error while a write is rejected.
pub proof fn lemma_array_bounds_asymmetry(elements: Seq<JSValue>, index: int)
    requires
        index >= elements.len(),
    ensures
        spec_array_get(elements, index) == JSValue::Undefined,
        !spec_array_set_in_bounds(elements, index),
{
}

/// Updating one slot of one array with a valid value preserves
/// well-formedness.
proof fn lemma_wf_update_array(a: JSRuntime, b: JSRuntime, id: int, index: int, v: JSValue)
    requires
        a.wf(),
        a.valid_value(v),
        0 <= id < a.arrays@.len(),
        0 <= index < a.arrays@[id].elements@.len(),
        b.arrays@.len() == a.arrays@.len(),
        forall|i: int| 0 <= i < a.arrays@.len() && i != id ==> b.arrays@[i] == a.arrays@[i],
        b.arrays@[id].elements@ == a.arrays@[id].elements@.update(index, v),
        b.only_arrays_differ(a),
    ensures
        b.wf(),
{
    assert forall|i: int, j: int|
        0 <= i < b.objects@.len() && 0 <= j < b.objects@[i].properties@.len() implies b.valid_value(
        #[trigger] b.objects@[i].properties@[j].value,
    ) by {
        assert(a.valid_value(a.objects@[i].properties@[j].value));
    }
    assert forall|i: int, j: int|
        0 <= i < b.arrays@.len() && 0 <= j < b.arrays@[i].elements@.len() implies b.valid_value(
        #[trigger] b.arrays@[i].elements@[j],
    ) by {
        if i == id && j == index {
            assert(b.arrays@[i].elements@[j] == v);
        } else {
            assert(b.arrays@[i].elements@[j] == a.arrays@[i].elements@[j]);
            assert(a.valid_value(a.arrays@[i].elements@[j]));
        }
    }
}

/// Appending one array record whose slots are all valid preserves
/// well-formedness.
proof fn lemma_wf_push_array(a: JSRuntime, b: JSRuntime)
    requires
        a.wf(),
        b.arrays@.len() == a.arrays@.len() + 1,
        forall|i: int| 0 <= i < a.arrays@.len() ==> b.arrays@[i] == a.arrays@[i],
        forall|j: int|
            0 <= j < b.arrays@[a.arrays@.len() as int].elements@.len()
                ==> b.arrays@[a.arrays@.len() as int].elements@[j] == JSValue::Undefined,
        b.only_arrays_differ(a),
    ensures
        b.wf(),
{
    assert forall|i: int, j: int|
        0 <= i < b.objects@.len() && 0 <= j < b.objects@[i].properties@.len() implies b.valid_value(
        #[trigger] b.objects@[i].properties@[j].value,
    ) by {
        assert(a.valid_value(a.objects@[i].properties@[j].value));
    }
    assert forall|i: int, j: int|
        0 <= i < b.arrays@.len() && 0 <= j < b.arrays@[i].elements@.len() implies b.valid_value(
        #[trigger] b.arrays@[i].elements@[j],
    ) by {
        if i < a.arrays@.len() {
            assert(a.valid_value(a.arrays@[i].elements@[j]));
        } else {
            assert(b.arrays@[i].elements@[j] == JSValue::Undefined);
        }
    }
}

impl JSArray {
    /// Create a new array with the specified length, every slot
    /// initially undefined.
    pub fn new(runtime: &mut JSRuntime, length: usize) -> (a: JSArray)
        ensures
            final(runtime).arrays@.len() == old(runtime).arrays@.len() + 1,
            final(runtime).arrays@[old(runtime).arrays@.len() as int].elements@.len() == length,
            forall|j: int|
                0 <= j < length ==> final(runtime).arrays@[old(runtime).arrays@.len() as int].elements@[j] == JSValue::Undefined,
            forall|i: int|
                0 <= i < old(runtime).arrays@.len() ==> final(runtime).arrays@[i] == old(runtime).arrays@[i],
            final(runtime).only_arrays_differ(*old(runtime)),
            a.id == old(runtime).arrays@.len(),
            old(runtime).wf() ==> final(runtime).wf(),
    {
        let elements: Vec<JSValue> = vec![JSValue::Undefined; length];
        let id = runtime.arrays.len();
        runtime.arrays.push(ArrayRecord { elements });
        proof {
            if old(runtime).wf() {
                lemma_wf_push_array(*old(runtime), *runtime);
            }
        }
        JSArray { id }
    }

    /// The element at `index`, or `undefined` when `index` is past the
    /// end; an out-of-range read is not an error.
    pub fn get(&self, runtime: &mut JSRuntime, index: usize) -> (v: JSValue)
        requires
            self.id < old(runtime).arrays@.len(),
        ensures
            *final(runtime) == *old(runtime),
            v == spec_array_get(old(runtime).arrays@[self.id as int].elements@, index as int),
            old(runtime).wf() ==> old(runtime).valid_value(v),
    {
        if index >= self.len(runtime) {
            return JSValue::undefined();
        }
        runtime.arrays[self.id].elements[index]
    }

    /// Write the element at `index`.
    ///
    /// Succeeds exactly when `index` is within the array's length; a
    /// write past the end reports an out-of-bounds error and leaves the
    /// runtime unchanged, by design asymmetric with `get`.
    pub fn set(&self, runtime: &mut JSRuntime, index: usize, value: &JSValue) -> (r: Result<
        (),
        String,
    >)
        requires
            self.id < old(runtime).arrays@.len(),
            old(runtime).valid_value(*value),
        ensures
            r is Ok <==> spec_array_set_in_bounds(
                old(runtime).arrays@[self.id as int].elements@,
                index as int,
            ),
            r is Ok ==> {
                &&& final(runtime).arrays@.len() == old(runtime).arrays@.len()
                &&& (forall|i: int|
                    0 <= i < old(runtime).arrays@.len() && i != self.id ==> final(runtime).arrays@[i] == old(runtime).arrays@[i])
                &&& final(runtime).arrays@[self.id as int].elements@ == old(runtime).arrays@[self.id as int].elements@.update(index as int, *value)
                &&& final(runtime).only_arrays_differ(*old(runtime))
                &&& (old(runtime).wf() ==> final(runtime).wf())
            },
            r matches Err(m) ==> {
                &&& *final(runtime) == *old(runtime)
                &&& m@ == spec_out_of_bounds_message(
                    index as nat,
                    old(runtime).arrays@[self.id as int].elements@.len(),
                )
            },
    {
        let len = self.len(runtime);
        if index >= len {
            let mut m = "Index ".to_owned();
            m.append(format_radix(false, index as u64, 10).as_str());
            m.append(" out of bounds for array of length ");
            m.append(format_radix(false, len as u64, 10).as_str());
            return Err(m);
        }
        runtime.arrays[self.id].elements[index] = *value;
        proof {
            if old(runtime).wf() {
                lemma_wf_update_array(
                    *old(runtime),
                    *runtime,
                    self.id as int,
                    index as int,
                    *value,
                );
            }
        }
        Ok(())
    }

    /// The array's length.
    pub fn len(&self, runtime: &mut JSRuntime) -> (l: usize)
        requires
            self.id < old(runtime).arrays@.len(),
        ensures
            *final(runtime) == *old(runtime),
            l == old(runtime).arrays@[self.id as int].elements@.len(),
    {
        runtime.arrays[self.id].elements.len()
    }

    /// Whether the array has length zero.
    pub fn is_empty(&self, runtime: &mut JSRuntime) -> (r: bool)
        requires
            self.id < old(runtime).arrays@.len(),
        ensures
            *final(runtime) == *old(runtime),
            r == (old(runtime).arrays@[self.id as int].elements@.len() == 0),
    {
        self.len(runtime) == 0
    }
}

} // verus!
