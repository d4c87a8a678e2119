//! String handles: host text materialised onto the runtime's heap and
//! read back as host text.

use vstd::prelude::*;
use crate::jsi::runtime::JSRuntime;

verus! {

/// A handle to a string on the runtime's heap.
#[derive(Debug)]
pub struct JSString {
    pub id: usize,
}

impl JSString {
    /// Create a new string on the runtime's heap from host UTF-8 text.
    pub fn new(runtime: &mut JSRuntime, data: &str) -> (s: JSString)
        ensures
            final(runtime).strings@.len() == old(runtime).strings@.len() + 1,
            final(runtime).strings@[old(runtime).strings@.len() as int]@ == data@,
            forall|i: int|
                0 <= i < old(runtime).strings@.len() ==> final(runtime).strings@[i] == old(runtime).strings@[i],
            final(runtime).only_strings_differ(*old(runtime)),
            s.id == old(runtime).strings@.len(),
            old(runtime).wf() ==> final(runtime).wf(),
    {
        let id = runtime.strings.len();
        runtime.strings.push(data.to_owned());
        proof {
            if old(runtime).wf() {
                crate::jsi::runtime::lemma_wf_grow(*old(runtime), *runtime);
            }
        }
        JSString { id }
    }

    /// Materialise the string back to host text.
    pub fn value(&self, runtime: &mut JSRuntime) -> (r: String)
        requires
            self.id < old(runtime).strings@.len(),
        ensures
            *final(runtime) == *old(runtime),
            r@ == old(runtime).strings@[self.id as int]@,
    {
        runtime.strings[self.id].clone()
    }
}

} // verus!
