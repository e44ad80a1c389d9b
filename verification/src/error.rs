//! The runtime failure type of the builtin library.
//!
//! Every builtin reports failure through one flat [`RuntimeError`] kind;
//! callers never need to branch on a subtype at the type level. The observed
//! categories each carry the data their message must name: the offending
//! value for a type mismatch, both the requested index and the list length
//! for an out-of-bounds access, and the underlying description for I/O and
//! encode failures.

use vstd::prelude::*;

use crate::value::{value_model, Value, ValueModel};

verus! {

/// Model of a [`RuntimeError`]: the same categories over value models and
/// character sequences.
pub ghost enum RuntimeErrorModel {
    TypeMismatch { found: ValueModel },
    OutOfBounds { index: int, len: int },
    Io { message: Seq<char> },
    Encode { message: Seq<char> },
}

/// A runtime failure of a builtin call. Builtins return it; they never
/// crash.
#[derive(Debug, PartialEq)]
pub enum RuntimeError {
    /// A value of the wrong variant was passed to a builtin; carries the
    /// offending value.
    TypeMismatch { found: Value },
    /// A list access beyond the end: carries the requested index and the
    /// list length.
    OutOfBounds { index: u64, len: u64 },
    /// A file could not be created or written.
    Io { message: String },
    /// A bitmap could not be serialized to the target image format.
    Encode { message: String },
}

impl View for RuntimeError {
    type V = RuntimeErrorModel;

    open spec fn view(&self) -> RuntimeErrorModel {
        match self {
            RuntimeError::TypeMismatch { found } => RuntimeErrorModel::TypeMismatch {
                found: value_model(*found),
            },
            RuntimeError::OutOfBounds { index, len } => RuntimeErrorModel::OutOfBounds {
                index: *index as int,
                len: *len as int,
            },
            RuntimeError::Io { message } => RuntimeErrorModel::Io { message: message@ },
            RuntimeError::Encode { message } => RuntimeErrorModel::Encode { message: message@ },
        }
    }
}

/// The descriptive message of a type-mismatch failure over the offending
/// value; produced by the standard formatter, which is a function of the
/// value alone.
pub uninterp spec fn mismatch_message(found: ValueModel) -> Seq<char>;

/// The descriptive message of an out-of-bounds failure over the requested
/// index and the list length; produced by the standard formatter, which is a
/// function of the two numbers alone.
pub uninterp spec fn out_of_bounds_message(index: int, len: int) -> Seq<char>;

/// Relies on the `format!` macro of std: renders the offending value of a
/// type mismatch into the error message.
#[verifier::external_body]
fn format_mismatch(found: &Value) -> (r: String)
    ensures
        r@ == mismatch_message(found@),
{
    format!("invalid argument: {:?}", found)
}

/// Relies on the `format!` macro of std: renders the requested index and the
/// list length into the error message.
#[verifier::external_body]
fn format_out_of_bounds(index: u64, len: u64) -> (r: String)
    ensures
        r@ == out_of_bounds_message(index as int, len as int),
{
    format!("Index out of bounds: {} >= {}", index, len)
}

/// The descriptive message of an error model.
pub open spec fn spec_describe(e: RuntimeErrorModel) -> Seq<char> {
    match e {
        RuntimeErrorModel::TypeMismatch { found } => mismatch_message(found),
        RuntimeErrorModel::OutOfBounds { index, len } => out_of_bounds_message(index, len),
        RuntimeErrorModel::Io { message } => message,
        RuntimeErrorModel::Encode { message } => message,
    }
}

impl RuntimeError {
    /// The descriptive message of this failure.
    pub fn describe(&self) -> (r: String)
        ensures
            r@ == spec_describe(self@),
    {
        match self {
            RuntimeError::TypeMismatch { found } => format_mismatch(found),
            RuntimeError::OutOfBounds { index, len } => format_out_of_bounds(*index, *len),
            RuntimeError::Io { message } => message.clone(),
            RuntimeError::Encode { message } => message.clone(),
        }
    }
}

} // verus!
