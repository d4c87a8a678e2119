//! Object handles: named properties on the runtime's heap.
//!
//! A missing property reads as `undefined` rather than failing, and
//! deleting an absent property is not an error; both are expected,
//! checkable conditions in JavaScript.

use vstd::prelude::*;
use crate::jsi::array::JSArray;
use crate::jsi::runtime::ArrayRecord;
use crate::jsi::runtime::JSRuntime;
use crate::jsi::runtime::ObjectRecord;
use crate::jsi::runtime::Property;
use crate::jsi::value::JSValue;

verus! {

/// A handle to an object on the runtime's heap.
#[derive(Debug)]
pub struct JSObject {
    pub id: usize,
}

/// The value stored under `key`, walking the properties front to back;
/// `undefined` when no property has that key.
pub open spec fn spec_lookup(props: Seq<Property>, key: Seq<char>) -> JSValue
    decreases props.len(),
{
    if props.len() == 0 {
        JSValue::Undefined
    } else if props[0].key@ == key {
        props[0].value
    } else {
        spec_lookup(props.drop_first(), key)
    }
}

/// Some property has the given key.
pub open spec fn spec_has_key(props: Seq<Property>, key: Seq<char>) -> bool {
    exists|i: int| 0 <= i < props.len() && (#[trigger] props[i].key@) == key
}

/// When index `j` holds the first property whose key matches, the lookup
/// returns that property's value.
proof fn lemma_lookup_first_match(props: Seq<Property>, j: int, key: Seq<char>)
    requires
        0 <= j < props.len(),
        props[j].key@ == key,
        forall|k: int| 0 <= k < j ==> (#[trigger] props[k].key@) != key,
    ensures
        spec_lookup(props, key) == props[j].value,
    decreases j,
{
    if j > 0 {
        lemma_lookup_first_match(props.drop_first(), j - 1, key);
    }
}

/// When no property's key matches, the lookup returns `undefined`.
proof fn lemma_lookup_no_match(props: Seq<Property>, key: Seq<char>)
    requires
        forall|k: int| 0 <= k < props.len() ==> (#[trigger] props[k].key@) != key,
    ensures
        spec_lookup(props, key) == JSValue::Undefined,
    decreases props.len(),
{
    if props.len() > 0 {
        lemma_lookup_no_match(props.drop_first(), key);
    }
}

/// Replacing the property at `j` with one carrying the same key leaves
/// lookups of every other key unchanged.
proof fn lemma_lookup_update_other(props: Seq<Property>, j: int, p: Property, key2: Seq<char>)
    requires
        0 <= j < props.len(),
        p.key@ == props[j].key@,
        key2 != p.key@,
    ensures
        spec_lookup(props.update(j, p), key2) == spec_lookup(props, key2),
    decreases j,
{
    let updated = props.update(j, p);
    if j == 0 {
        assert(updated.drop_first() =~= props.drop_first());
    } else {
        if props[0].key@ != key2 {
            assert(updated.drop_first() =~= props.drop_first().update(j - 1, p));
            lemma_lookup_update_other(props.drop_first(), j - 1, p, key2);
        }
    }
}

/// Appending a property leaves lookups of every other key unchanged.
proof fn lemma_lookup_push_other(props: Seq<Property>, p: Property, key2: Seq<char>)
    requires
        key2 != p.key@,
    ensures
        spec_lookup(props.push(p), key2) == spec_lookup(props, key2),
    decreases props.len(),
{
    let pushed = props.push(p);
    if props.len() == 0 {
        assert(pushed[0] == p);
        assert(pushed.drop_first() =~= Seq::<Property>::empty());
        assert(spec_lookup(Seq::<Property>::empty(), key2) == JSValue::Undefined);
        assert(spec_lookup(pushed, key2) == JSValue::Undefined);
    } else {
        assert(pushed[0] == props[0]);
        if props[0].key@ != key2 {
            assert(pushed.drop_first() =~= props.drop_first().push(p));
            lemma_lookup_push_other(props.drop_first(), p, key2);
        }
    }
}

/// Removing the property at `j` leaves lookups of keys other than its
/// own unchanged.
proof fn lemma_lookup_remove_other(props: Seq<Property>, j: int, key2: Seq<char>)
    requires
        0 <= j < props.len(),
        props[j].key@ != key2,
    ensures
        spec_lookup(props.remove(j), key2) == spec_lookup(props, key2),
    decreases j,
{
    let removed = props.remove(j);
    if j == 0 {
        assert(removed =~= props.drop_first());
    } else {
        assert(removed[0] == props[0]);
        if props[0].key@ != key2 {
            assert(removed.drop_first() =~= props.drop_first().remove(j - 1));
            lemma_lookup_remove_other(props.drop_first(), j - 1, key2);
        }
    }
}

/// Two property sequences with pointwise-equal keys agree on which keys
/// are present.
proof fn lemma_has_key_same_keys(a: Seq<Property>, b: Seq<Property>, key: Seq<char>)
    requires
        a.len() == b.len(),
        forall|i: int| 0 <= i < a.len() ==> (#[trigger] a[i].key@) == b[i].key@,
    ensures
        spec_has_key(a, key) == spec_has_key(b, key),
{
    if spec_has_key(a, key) {
        let i = choose|i: int| 0 <= i < a.len() && (#[trigger] a[i].key@) == key;
        assert(b[i].key@ == key);
    }
    if spec_has_key(b, key) {
        let i = choose|i: int| 0 <= i < b.len() && (#[trigger] b[i].key@) == key;
        assert(a[i].key@ == key);
    }
}

/// Rewriting one object's properties preserves well-formedness, as long
/// as the rewritten properties hold valid values under distinct keys.
proof fn lemma_wf_object_props(a: JSRuntime, b: JSRuntime, id: int)
    requires
        a.wf(),
        0 <= id < a.objects@.len(),
        b.objects@.len() == a.objects@.len(),
        forall|i: int| 0 <= i < a.objects@.len() && i != id ==> b.objects@[i] == a.objects@[i],
        b.only_objects_differ(a),
        forall|j: int|
            0 <= j < b.objects@[id].properties@.len() ==> a.valid_value(
                #[trigger] b.objects@[id].properties@[j].value,
            ),
        forall|j1: int, j2: int|
            0 <= j1 < j2 < b.objects@[id].properties@.len()
                ==> (#[trigger] b.objects@[id].properties@[j1].key@) != (
            #[trigger] b.objects@[id].properties@[j2].key@),
    ensures
        b.wf(),
{
    assert forall|i: int, j: int|
        0 <= i < b.objects@.len() && 0 <= j < b.objects@[i].properties@.len() implies b.valid_value(
        #[trigger] b.objects@[i].properties@[j].value,
    ) by {
        if i == id {
            assert(a.valid_value(b.objects@[id].properties@[j].value));
        } else {
            assert(a.valid_value(a.objects@[i].properties@[j].value));
        }
    }
    assert forall|i: int, j1: int, j2: int|
        0 <= i < b.objects@.len() && 0 <= j1 < j2 < b.objects@[i].properties@.len() implies (
    #[trigger] b.objects@[i].properties@[j1].key@) != (
    #[trigger] b.objects@[i].properties@[j2].key@) by {
        if i != id {
            assert(a.objects@[i].properties@[j1].key@ != a.objects@[i].properties@[j2].key@);
        }
    }
    assert forall|i: int, j: int|
        0 <= i < b.arrays@.len() && 0 <= j < b.arrays@[i].elements@.len() implies b.valid_value(
        #[trigger] b.arrays@[i].elements@[j],
    ) by {
        assert(a.valid_value(a.arrays@[i].elements@[j]));
    }
}

/// Appending one object record with no properties preserves
/// well-formedness.
proof fn lemma_wf_push_object(a: JSRuntime, b: JSRuntime)
    requires
        a.wf(),
        b.objects@.len() == a.objects@.len() + 1,
        forall|i: int| 0 <= i < a.objects@.len() ==> b.objects@[i] == a.objects@[i],
        b.objects@[a.objects@.len() as int].properties@.len() == 0,
        b.only_objects_differ(a),
    ensures
        b.wf(),
{
    assert forall|i: int, j: int|
        0 <= i < b.objects@.len() && 0 <= j < b.objects@[i].properties@.len() implies b.valid_value(
        #[trigger] b.objects@[i].properties@[j].value,
    ) by {
        assert(i < a.objects@.len());
        assert(a.valid_value(a.objects@[i].properties@[j].value));
    }
    assert forall|i: int, j: int|
        0 <= i < b.arrays@.len() && 0 <= j < b.arrays@[i].elements@.len() implies b.valid_value(
        #[trigger] b.arrays@[i].elements@[j],
    ) by {
        assert(a.valid_value(a.arrays@[i].elements@[j]));
    }
}

impl JSObject {
    /// Create a new empty, non-callable object.
    pub fn new(runtime: &mut JSRuntime) -> (o: JSObject)
        ensures
            final(runtime).objects@.len() == old(runtime).objects@.len() + 1,
            final(runtime).objects@[old(runtime).objects@.len() as int].properties@.len() == 0,
            final(runtime).objects@[old(runtime).objects@.len() as int].callable == false,
            forall|i: int|
                0 <= i < old(runtime).objects@.len() ==> final(runtime).objects@[i] == old(runtime).objects@[i],
            final(runtime).only_objects_differ(*old(runtime)),
            o.id == old(runtime).objects@.len(),
            old(runtime).wf() ==> final(runtime).wf(),
    {
        let id = runtime.objects.len();
        runtime.objects.push(ObjectRecord { properties: Vec::new(), callable: false });
        proof {
            if old(runtime).wf() {
                lemma_wf_push_object(*old(runtime), *runtime);
            }
        }
        JSObject { id }
    }

    /// Get a property value by name; an absent key yields `undefined`,
    /// never an error.
    #[verifier::loop_isolation(false)]
    pub fn get(&self, runtime: &mut JSRuntime, name: &str) -> (v: JSValue)
        requires
            self.id < old(runtime).objects@.len(),
        ensures
            *final(runtime) == *old(runtime),
            v == spec_lookup(old(runtime).objects@[self.id as int].properties@, name@),
            old(runtime).wf() ==> old(runtime).valid_value(v),
    {
        let key_string: String = name.to_owned();
        let n = runtime.objects[self.id].properties.len();
        let mut j: usize = 0;
        while j < n
            invariant
                self.id < runtime.objects@.len(),
                n == runtime.objects@[self.id as int].properties@.len(),
                j <= n,
                key_string@ == name@,
                forall|k: int|
                    0 <= k < j ==> (#[trigger] runtime.objects@[self.id as int].properties@[k].key@)
                        != name@,
            decreases n - j,
        {
            if runtime.objects[self.id].properties[j].key == key_string {
                proof {
                    lemma_lookup_first_match(
                        runtime.objects@[self.id as int].properties@,
                        j as int,
                        name@,
                    );
                }
                return runtime.objects[self.id].properties[j].value;
            }
            j += 1;
        }
        proof {
            lemma_lookup_no_match(runtime.objects@[self.id as int].properties@, name@);
        }
        JSValue::undefined()
    }

    /// Set a property value by name: overwrite the existing property in
    /// place, or append a new one when the key is absent.
    #[verifier::loop_isolation(false)]
    pub fn set(&self, runtime: &mut JSRuntime, name: &str, value: &JSValue)
        requires
            self.id < old(runtime).objects@.len(),
            old(runtime).valid_value(*value),
        ensures
            final(runtime).objects@.len() == old(runtime).objects@.len(),
            forall|i: int|
                0 <= i < old(runtime).objects@.len() && i != self.id ==> final(runtime).objects@[i]
                    == old(runtime).objects@[i],
            final(runtime).objects@[self.id as int].callable == old(runtime).objects@[self.id as int].callable,
            final(runtime).only_objects_differ(*old(runtime)),
            spec_lookup(final(runtime).objects@[self.id as int].properties@, name@) == *value,
            spec_has_key(final(runtime).objects@[self.id as int].properties@, name@),
            forall|key2: Seq<char>|
                key2 != name@ ==> #[trigger] spec_lookup(
                    final(runtime).objects@[self.id as int].properties@,
                    key2,
                ) == spec_lookup(old(runtime).objects@[self.id as int].properties@, key2),
            forall|key2: Seq<char>|
                key2 != name@ ==> #[trigger] spec_has_key(
                    final(runtime).objects@[self.id as int].properties@,
                    key2,
                ) == spec_has_key(old(runtime).objects@[self.id as int].properties@, key2),
            old(runtime).wf() ==> final(runtime).wf(),
    {
        let ghost rt0 = *old(runtime);
        let ghost old_props = rt0.objects@[self.id as int].properties@;
        let key_string: String = name.to_owned();
        let n = runtime.objects[self.id].properties.len();
        let mut j: usize = 0;
        while j < n
            invariant
                self.id < rt0.objects@.len(),
                *runtime == rt0,
                old_props == rt0.objects@[self.id as int].properties@,
                n == old_props.len(),
                j <= n,
                key_string@ == name@,
                forall|k: int| 0 <= k < j ==> (#[trigger] old_props[k].key@) != name@,
            decreases n - j,
        {
            if runtime.objects[self.id].properties[j].key == key_string {
                runtime.objects[self.id].properties[j] = Property {
                    key: key_string,
                    value: *value,
                };
                proof {
                    let new_props = runtime.objects@[self.id as int].properties@;
                    let p = new_props[j as int];
                    assert(p.key@ == name@);
                    assert(p.value == *value);
                    assert(new_props =~= old_props.update(j as int, p));
                    lemma_lookup_first_match(new_props, j as int, name@);
                    assert(spec_has_key(new_props, name@));
                    assert forall|key2: Seq<char>| key2 != name@ implies #[trigger] spec_lookup(
                        new_props,
                        key2,
                    ) == spec_lookup(old_props, key2) by {
                        lemma_lookup_update_other(old_props, j as int, p, key2);
                    }
                    assert forall|key2: Seq<char>| key2 != name@ implies #[trigger] spec_has_key(
                        new_props,
                        key2,
                    ) == spec_has_key(old_props, key2) by {
                        lemma_has_key_same_keys(new_props, old_props, key2);
                    }
                    if old(runtime).wf() {
                        assert forall|j1: int, j2: int|
                            0 <= j1 < j2 < new_props.len() implies (
                        #[trigger] new_props[j1].key@) != (#[trigger] new_props[j2].key@) by {
                            assert(old_props[j1].key@ != old_props[j2].key@);
                            assert(new_props[j1].key@ == if j1 == j {
                                name@
                            } else {
                                old_props[j1].key@
                            });
                        }
                        lemma_wf_object_props(*old(runtime), *runtime, self.id as int);
                    }
                }
                return ;
            }
            j += 1;
        }
        let p = Property { key: key_string, value: *value };
        runtime.objects[self.id].properties.push(p);
        proof {
            let new_props = runtime.objects@[self.id as int].properties@;
            let p_ghost = new_props[old_props.len() as int];
            assert(p_ghost.key@ == name@);
            assert(p_ghost.value == *value);
            assert(new_props =~= old_props.push(p_ghost));
            assert(new_props[old_props.len() as int].key@ == name@);
            lemma_lookup_first_match(new_props, old_props.len() as int, name@);
            assert(spec_has_key(new_props, name@));
            assert forall|key2: Seq<char>| key2 != name@ implies #[trigger] spec_lookup(
                new_props,
                key2,
            ) == spec_lookup(old_props, key2) by {
                lemma_lookup_push_other(old_props, p_ghost, key2);
            }
            assert forall|key2: Seq<char>| key2 != name@ implies #[trigger] spec_has_key(
                new_props,
                key2,
            ) == spec_has_key(old_props, key2) by {
                if spec_has_key(new_props, key2) {
                    let i = choose|i: int|
                        0 <= i < new_props.len() && (#[trigger] new_props[i].key@) == key2;
                    assert(i < old_props.len());
                    assert(old_props[i].key@ == key2);
                }
                if spec_has_key(old_props, key2) {
                    let i = choose|i: int|
                        0 <= i < old_props.len() && (#[trigger] old_props[i].key@) == key2;
                    assert(new_props[i].key@ == key2);
                }
            }
            if old(runtime).wf() {
                assert forall|j1: int, j2: int|
                    0 <= j1 < j2 < new_props.len() implies (#[trigger] new_props[j1].key@) != (
                #[trigger] new_props[j2].key@) by {
                    if j2 < old_props.len() {
                        assert(old_props[j1].key@ != old_props[j2].key@);
                    } else {
                        assert(new_props[j2].key@ == name@);
                        assert(old_props[j1].key@ != name@);
                    }
                }
                lemma_wf_object_props(*old(runtime), *runtime, self.id as int);
            }
        }
    }

    /// Check whether the object has a property with the given name.
    #[verifier::loop_isolation(false)]
    pub fn has(&self, runtime: &mut JSRuntime, name: &str) -> (r: bool)
        requires
            self.id < old(runtime).objects@.len(),
        ensures
            *final(runtime) == *old(runtime),
            r == spec_has_key(old(runtime).objects@[self.id as int].properties@, name@),
    {
        let key_string: String = name.to_owned();
        let n = runtime.objects[self.id].properties.len();
        let mut j: usize = 0;
        while j < n
            invariant
                self.id < runtime.objects@.len(),
                n == runtime.objects@[self.id as int].properties@.len(),
                j <= n,
                key_string@ == name@,
                forall|k: int|
                    0 <= k < j ==> (#[trigger] runtime.objects@[self.id as int].properties@[k].key@)
                        != name@,
            decreases n - j,
        {
            if runtime.objects[self.id].properties[j].key == key_string {
                return true;
            }
            j += 1;
        }
        false
    }

    /// Delete a property by name. Deleting an absent property is not an
    /// error; afterwards the property reads as `undefined` either way.
    #[verifier::loop_isolation(false)]
    pub fn delete(&self, runtime: &mut JSRuntime, name: &str)
        requires
            self.id < old(runtime).objects@.len(),
        ensures
            final(runtime).objects@.len() == old(runtime).objects@.len(),
            forall|i: int|
                0 <= i < old(runtime).objects@.len() && i != self.id ==> final(runtime).objects@[i]
                    == old(runtime).objects@[i],
            final(runtime).objects@[self.id as int].callable == old(runtime).objects@[self.id as int].callable,
            final(runtime).only_objects_differ(*old(runtime)),
            old(runtime).wf() ==> !spec_has_key(
                final(runtime).objects@[self.id as int].properties@,
                name@,
            ),
            old(runtime).wf() ==> spec_lookup(
                final(runtime).objects@[self.id as int].properties@,
                name@,
            ) == JSValue::Undefined,
            old(runtime).wf() ==> (forall|key2: Seq<char>|
                key2 != name@ ==> #[trigger] spec_lookup(
                    final(runtime).objects@[self.id as int].properties@,
                    key2,
                ) == spec_lookup(old(runtime).objects@[self.id as int].properties@, key2)),
            old(runtime).wf() ==> (forall|key2: Seq<char>|
                key2 != name@ ==> #[trigger] spec_has_key(
                    final(runtime).objects@[self.id as int].properties@,
                    key2,
                ) == spec_has_key(old(runtime).objects@[self.id as int].properties@, key2)),
            old(runtime).wf() ==> final(runtime).wf(),
    {
        let ghost rt0 = *old(runtime);
        let ghost old_props = rt0.objects@[self.id as int].properties@;
        let key_string: String = name.to_owned();
        let n = runtime.objects[self.id].properties.len();
        let mut j: usize = 0;
        while j < n
            invariant
                self.id < rt0.objects@.len(),
                *runtime == rt0,
                old_props == rt0.objects@[self.id as int].properties@,
                n == old_props.len(),
                j <= n,
                key_string@ == name@,
                forall|k: int| 0 <= k < j ==> (#[trigger] old_props[k].key@) != name@,
            decreases n - j,
        {
            if runtime.objects[self.id].properties[j].key == key_string {
                runtime.objects[self.id].properties.remove(j);
                proof {
                    let new_props = runtime.objects@[self.id as int].properties@;
                    assert(new_props =~= old_props.remove(j as int));
                    if old(runtime).wf() {
                        assert forall|k: int| 0 <= k < new_props.len() implies (
                        #[trigger] new_props[k].key@) != name@ by {
                            if k < j {
                                assert(new_props[k] == old_props[k]);
                            } else {
                                assert(new_props[k] == old_props[k + 1]);
                                assert(old_props[j as int].key@ == name@);
                                if old_props[k + 1].key@ == name@ {
                                    assert(old_props[j as int].key@ == old_props[k + 1].key@);
                                    assert(false);
                                }
                            }
                        }
                        lemma_lookup_no_match(new_props, name@);
                        assert forall|key2: Seq<char>| key2 != name@ implies #[trigger] spec_lookup(
                            new_props,
                            key2,
                        ) == spec_lookup(old_props, key2) by {
                            lemma_lookup_remove_other(old_props, j as int, key2);
                        }
                        assert forall|key2: Seq<char>| key2 != name@ implies #[trigger] spec_has_key(
                            new_props,
                            key2,
                        ) == spec_has_key(old_props, key2) by {
                            if spec_has_key(new_props, key2) {
                                let i = choose|i: int|
                                    0 <= i < new_props.len() && (#[trigger] new_props[i].key@)
                                        == key2;
                                if i < j {
                                    assert(old_props[i].key@ == key2);
                                } else {
                                    assert(old_props[i + 1].key@ == key2);
                                }
                            }
                            if spec_has_key(old_props, key2) {
                                let i = choose|i: int|
                                    0 <= i < old_props.len() && (#[trigger] old_props[i].key@)
                                        == key2;
                                if i < j {
                                    assert(new_props[i].key@ == key2);
                                } else {
                                    assert(i != j);
                                    assert(new_props[i - 1].key@ == key2);
                                }
                            }
                        }
                        assert forall|j1: int, j2: int|
                            0 <= j1 < j2 < new_props.len() implies (
                        #[trigger] new_props[j1].key@) != (#[trigger] new_props[j2].key@) by {
                            let o1: int = if j1 < j { j1 } else { j1 + 1 };
                            let o2: int = if j2 < j { j2 } else { j2 + 1 };
                            assert(new_props[j1] == old_props[o1]);
                            assert(new_props[j2] == old_props[o2]);
                            assert(old_props[o1].key@ != old_props[o2].key@);
                        }
                        assert forall|k: int| 0 <= k < new_props.len() implies old(runtime).valid_value(#[trigger] new_props[k].value) by {
                            let o: int = if k < j { k } else { k + 1 };
                            assert(new_props[k] == old_props[o]);
                            assert(old(runtime).valid_value(old_props[o].value));
                        }
                        lemma_wf_object_props(*old(runtime), *runtime, self.id as int);
                    }
                }
                return ;
            }
            j += 1;
        }
        proof {
            if old(runtime).wf() {
                lemma_lookup_no_match(old_props, name@);
            }
        }
    }

    /// Get an array of this object's property names, in the engine's
    /// enumeration order (here: property storage order). Each name is
    /// materialised as a fresh string on the runtime's heap.
    #[verifier::loop_isolation(false)]
    pub fn get_property_names(&self, runtime: &mut JSRuntime) -> (a: JSArray)
        requires
            self.id < old(runtime).objects@.len(),
            old(runtime).wf(),
        ensures
            final(runtime).wf(),
            final(runtime).objects@ == old(runtime).objects@,
            final(runtime).prop_names@ == old(runtime).prop_names@,
            final(runtime).bigints@ == old(runtime).bigints@,
            final(runtime).strings@.len() == old(runtime).strings@.len() + old(runtime).objects@[self.id as int].properties@.len(),
            forall|i: int|
                0 <= i < old(runtime).strings@.len() ==> final(runtime).strings@[i] == old(runtime).strings@[i],
            forall|k: int|
                0 <= k < old(runtime).objects@[self.id as int].properties@.len() ==> final(runtime).strings@[old(runtime).strings@.len() + k]@ == old(runtime).objects@[self.id as int].properties@[k].key@,
            final(runtime).arrays@.len() == old(runtime).arrays@.len() + 1,
            forall|i: int|
                0 <= i < old(runtime).arrays@.len() ==> final(runtime).arrays@[i] == old(runtime).arrays@[i],
            a.id == old(runtime).arrays@.len(),
            final(runtime).arrays@[a.id as int].elements@.len() == old(runtime).objects@[self.id as int].properties@.len(),
            forall|k: int|
                0 <= k < old(runtime).objects@[self.id as int].properties@.len() ==> final(runtime).arrays@[a.id as int].elements@[k] == (JSValue::Str {
                    id: (old(runtime).strings@.len() + k) as usize,
                }),
    {
        let ghost old_rt = *old(runtime);
        let ghost props = old(runtime).objects@[self.id as int].properties@;
        let ghost base = old(runtime).strings@.len();
        let n = runtime.objects[self.id].properties.len();
        let mut elements: Vec<JSValue> = Vec::new();
        let mut k: usize = 0;
        while k < n
            invariant
                self.id < runtime.objects@.len(),
                runtime.objects@ == old_rt.objects@,
                runtime.prop_names@ == old_rt.prop_names@,
                runtime.bigints@ == old_rt.bigints@,
                runtime.arrays@ == old_rt.arrays@,
                props == old_rt.objects@[self.id as int].properties@,
                base == old_rt.strings@.len(),
                n == props.len(),
                k <= n,
                runtime.strings@.len() == base + k,
                forall|i: int| 0 <= i < base ==> runtime.strings@[i] == old_rt.strings@[i],
                forall|m: int|
                    0 <= m < k ==> runtime.strings@[base + m]@ == (#[trigger] props[m].key@),
                elements@.len() == k,
                forall|m: int|
                    0 <= m < k ==> elements@[m] == (JSValue::Str { id: (base + m) as usize }),
            decreases n - k,
        {
            let key_copy = runtime.objects[self.id].properties[k].key.clone();
            let sid = runtime.strings.len();
            runtime.strings.push(key_copy);
            elements.push(JSValue::Str { id: sid });
            k += 1;
        }
        let id = runtime.arrays.len();
        runtime.arrays.push(ArrayRecord { elements });
        proof {
            let b = *runtime;
            assert forall|i: int, j: int|
                0 <= i < b.objects@.len() && 0 <= j < b.objects@[i].properties@.len() implies b.valid_value(
                #[trigger] b.objects@[i].properties@[j].value,
            ) by {
                assert(old_rt.valid_value(old_rt.objects@[i].properties@[j].value));
            }
            assert forall|i: int, j: int|
                0 <= i < b.arrays@.len() && 0 <= j < b.arrays@[i].elements@.len() implies b.valid_value(
                #[trigger] b.arrays@[i].elements@[j],
            ) by {
                if i < old_rt.arrays@.len() {
                    assert(old_rt.valid_value(old_rt.arrays@[i].elements@[j]));
                } else {
                    assert(b.arrays@[i].elements@[j] == (JSValue::Str {
                        id: (base + j) as usize,
                    }));
                }
            }
        }
        JSArray { id }
    }
}

} // verus!
