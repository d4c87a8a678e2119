//! Function handles: a callable object on the runtime's heap.
//!
//! A function handle is obtained by downcasting a value through
//! [`crate::jsi::value::JSValue::as_function`], which checks both that
//! the value is an object and that the object is callable. Invoking the
//! function runs JavaScript inside the engine, which is the embedding
//! layer's job, not this model's; the handle itself only records which
//! object would be invoked.

use vstd::prelude::*;

verus! {

/// A handle to a callable object on the runtime's heap.
#[derive(Debug)]
pub struct JSFunction {
    pub id: usize,
}

} // verus!
