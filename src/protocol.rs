use vstd::prelude::*;

use crate::error::Error;
use crate::value::{is_str, Value};

verus! {

/// Message type of a single-shot reply that carries a value, and of a
/// streaming chunk.
pub const VALUE: u64 = 0;

/// Message type of a reply through the remote side's error branch.
pub const ERROR: u64 = 1;

/// Message type that closes a stream.
pub const CLOSE: u64 = 2;

/// One delivery on a stream: a chunk, a terminal error, or a clean close.
#[derive(Debug, PartialEq)]
pub enum Streaming<T> {
    Write(T),
    Error(Error),
    Close,
}

/// `v` is the wire form of the remote error `e`: the array `[category, message]`.
pub open spec fn remote_error_wire(v: Value, e: Error) -> bool {
    &&& v matches Value::Array(f)
    &&& f@.len() == 2
    &&& e matches Error::Remote { category, message }
    &&& is_str(f@[0], category@)
    &&& is_str(f@[1], message@)
}

/// What a payload of the error branch decodes to: the remote error it is the
/// wire form of, or `Error::Decode` when it is the wire form of none.
pub open spec fn error_branch(v: Value, e: Error) -> bool {
    ||| remote_error_wire(v, e)
    ||| (e == Error::Decode && forall|x: Error| !remote_error_wire(v, x))
}

/// Decodes the payload of an error-branch frame.
pub fn decode_remote_error(v: &Value) -> (r: Error)
    ensures
        error_branch(*v, r),
{
    match v {
        Value::Array(f) => {
            if f.len() == 2 {
                match (&f[0], &f[1]) {
                    (Value::Str(c), Value::Str(m)) => {
                        return Error::Remote { category: c.clone(), message: m.clone() };
                    },
                    _ => {},
                }
            }
            Error::Decode
        },
        _ => Error::Decode,
    }
}

} // verus!
