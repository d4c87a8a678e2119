//! The value and handle layer: a tagged value model plus per-kind handle
//! types (object, array, string, property key, bigint, function), every
//! operation of which goes through an exclusively borrowed [`JSRuntime`].
//!
//! Heap-resident entities (strings, objects, arrays, bigints) live in the
//! runtime's own tables; a handle is an index into one of those tables and
//! is only meaningful for the runtime that created it, which each
//! operation states as a precondition.

pub mod array;
pub mod bigint;
pub mod error;
pub mod function;
pub mod object;
pub mod propnameid;
pub mod runtime;
pub mod string;
pub mod value;

pub use array::JSArray;
pub use bigint::JSBigInt;
pub use error::Error;
pub use function::JSFunction;
pub use object::JSObject;
pub use propnameid::JSPropNameID;
pub use runtime::IntoJSIBigInt;
pub use runtime::JSRuntime;
pub use string::JSString;
pub use value::JSValue;
