//! Property-key handles: interned property names on the runtime's heap.

use vstd::prelude::*;
use crate::jsi::runtime::JSRuntime;

verus! {

/// A handle to an interned property name on the runtime's heap.
#[derive(Debug)]
pub struct JSPropNameID {
    pub id: usize,
}

impl JSPropNameID {
    /// Intern a property name from host UTF-8 text.
    pub fn new(runtime: &mut JSRuntime, name: &str) -> (p: JSPropNameID)
        ensures
            final(runtime).prop_names@.len() == old(runtime).prop_names@.len() + 1,
            final(runtime).prop_names@[old(runtime).prop_names@.len() as int]@ == name@,
            forall|i: int|
                0 <= i < old(runtime).prop_names@.len() ==> final(runtime).prop_names@[i] == old(runtime).prop_names@[i],
            final(runtime).only_prop_names_differ(*old(runtime)),
            p.id == old(runtime).prop_names@.len(),
            old(runtime).wf() ==> final(runtime).wf(),
    {
        let id = runtime.prop_names.len();
        runtime.prop_names.push(name.to_owned());
        proof {
            if old(runtime).wf() {
                crate::jsi::runtime::lemma_wf_grow(*old(runtime), *runtime);
            }
        }
        JSPropNameID { id }
    }

    /// Read the interned name back as host text.
    pub fn value(&self, runtime: &mut JSRuntime) -> (r: String)
        requires
            self.id < old(runtime).prop_names@.len(),
        ensures
            *final(runtime) == *old(runtime),
            r@ == old(runtime).prop_names@[self.id as int]@,
    {
        runtime.prop_names[self.id].clone()
    }
}

} // verus!
