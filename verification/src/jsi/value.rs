//! The tagged value model: any JavaScript value is one of undefined,
//! null, boolean, number, string, object or bigint.
//!
//! Primitive variants carry their payload directly; heap variants carry a
//! handle (an index into the owning runtime's table for that kind).
//! Numbers are carried as the raw bit pattern of the 64-bit double, so
//! the model itself stays free of floating-point arithmetic.

use vstd::prelude::*;
use crate::jsi::function::JSFunction;
use crate::jsi::bigint::JSBigInt;
use crate::jsi::runtime::JSRuntime;
use crate::jsi::string::JSString;

verus! {

/// A JavaScript value: a closed tagged union over the seven kinds.
#[derive(Clone, Copy, Debug)]
pub enum JSValue {
    Undefined,
    Null,
    Bool { b: bool },
    Number { bits: u64 },
    Str { id: usize },
    Object { id: usize },
    BigInt { id: usize },
}

impl JSValue {
    /// The boolean payload; meaningful only for the `Bool` variant.
    pub open spec fn spec_bool(self) -> bool {
        match self {
            JSValue::Bool { b } => b,
            _ => false,
        }
    }

    /// The number payload bits; meaningful only for the `Number` variant.
    pub open spec fn spec_number_bits(self) -> u64 {
        match self {
            JSValue::Number { bits } => bits,
            _ => 0,
        }
    }

    /// The string-table handle; meaningful only for the `Str` variant.
    pub open spec fn spec_str_id(self) -> usize {
        match self {
            JSValue::Str { id } => id,
            _ => 0,
        }
    }

    /// The object-table handle; meaningful only for the `Object` variant.
    pub open spec fn spec_object_id(self) -> usize {
        match self {
            JSValue::Object { id } => id,
            _ => 0,
        }
    }

    /// The bigint-table handle; meaningful only for the `BigInt` variant.
    pub open spec fn spec_bigint_id(self) -> usize {
        match self {
            JSValue::BigInt { id } => id,
            _ => 0,
        }
    }

    /// Create an undefined JavaScript value.
    pub fn undefined() -> (v: JSValue)
        ensures
            v == JSValue::Undefined,
    {
        JSValue::Undefined
    }

    /// Create a null JavaScript value.
    pub fn null() -> (v: JSValue)
        ensures
            v == JSValue::Null,
    {
        JSValue::Null
    }

    /// Create a boolean JavaScript value.
    pub fn bool(value: bool) -> (v: JSValue)
        ensures
            v == (JSValue::Bool { b: value }),
    {
        JSValue::Bool { b: value }
    }

    /// Create a number JavaScript value from the bit pattern of a 64-bit
    /// double.
    pub fn number_from_bits(bits: u64) -> (v: JSValue)
        ensures
            v == (JSValue::Number { bits }),
    {
        JSValue::Number { bits }
    }

    pub fn is_undefined(&self) -> (r: bool)
        ensures
            r == (*self is Undefined),
    {
        matches!(self, JSValue::Undefined)
    }

    pub fn is_null(&self) -> (r: bool)
        ensures
            r == (*self is Null),
    {
        matches!(self, JSValue::Null)
    }

    pub fn is_bool(&self) -> (r: bool)
        ensures
            r == (*self is Bool),
    {
        matches!(self, JSValue::Bool { .. })
    }

    pub fn is_number(&self) -> (r: bool)
        ensures
            r == (*self is Number),
    {
        matches!(self, JSValue::Number { .. })
    }

    pub fn is_string(&self) -> (r: bool)
        ensures
            r == (*self is Str),
    {
        matches!(self, JSValue::Str { .. })
    }

    pub fn is_object(&self) -> (r: bool)
        ensures
            r == (*self is Object),
    {
        matches!(self, JSValue::Object { .. })
    }

    pub fn is_bigint(&self) -> (r: bool)
        ensures
            r == (*self is BigInt),
    {
        matches!(self, JSValue::BigInt { .. })
    }

    /// The boolean payload. Calling this on a value that is not a boolean
    /// is a contract violation: the caller must check `is_bool` first.
    pub fn as_bool(&self) -> (r: bool)
        requires
            *self is Bool,
        ensures
            r == self.spec_bool(),
    {
        match self {
            JSValue::Bool { b } => *b,
            _ => false,
        }
    }

    /// The number payload as the bit pattern of a 64-bit double. Calling
    /// this on a value that is not a number is a contract violation: the
    /// caller must check `is_number` first.
    pub fn as_number_bits(&self) -> (r: u64)
        requires
            *self is Number,
        ensures
            r == self.spec_number_bits(),
    {
        match self {
            JSValue::Number { bits } => *bits,
            _ => 0,
        }
    }

    /// Downcast to a string handle; `None` on tag mismatch, which is an
    /// expected, checkable condition rather than an error.
    pub fn as_string(&self, runtime: &mut JSRuntime) -> (r: Option<JSString>)
        ensures
            *final(runtime) == *old(runtime),
            r == if *self is Str {
                Some(JSString { id: self.spec_str_id() })
            } else {
                Option::<JSString>::None
            },
    {
        match self {
            JSValue::Str { id } => Some(JSString { id: *id }),
            _ => None,
        }
    }

    /// Downcast to a bigint handle; `None` on tag mismatch.
    pub fn as_bigint(&self, runtime: &mut JSRuntime) -> (r: Option<JSBigInt>)
        ensures
            *final(runtime) == *old(runtime),
            r == if *self is BigInt {
                Some(JSBigInt { id: self.spec_bigint_id() })
            } else {
                Option::<JSBigInt>::None
            },
    {
        match self {
            JSValue::BigInt { id } => Some(JSBigInt { id: *id }),
            _ => None,
        }
    }

    /// Two-stage downcast to a function handle: `None` when the value is
    /// not an object, or when the object is not callable.
    pub fn as_function(&self, runtime: &mut JSRuntime) -> (r: Option<JSFunction>)
        requires
            old(runtime).valid_value(*self),
        ensures
            *final(runtime) == *old(runtime),
            r == if *self is Object && old(runtime).objects@[self.spec_object_id() as int].callable {
                Some(JSFunction { id: self.spec_object_id() })
            } else {
                Option::<JSFunction>::None
            },
    {
        match self {
            JSValue::Object { id } => {
                if runtime.objects[*id].callable {
                    Some(JSFunction { id: *id })
                } else {
                    None
                }
            },
            _ => None,
        }
    }
}

} // verus!
