use vstd::prelude::*;

verus! {

/// The ways a call can fail.
#[derive(Debug, Clone, PartialEq, Eq)]
pub enum Error {
    /// The payload does not have the shape that the call's grammar asks for.
    Decode,
    /// The remote side answered through its error branch.
    Remote { category: String, message: String },
    /// The call was torn down before a terminal frame arrived.
    Cancelled,
}

} // verus!
