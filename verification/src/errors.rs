//! Errors that a rate-limiting decision can give.

use vstd::prelude::*;

verus! {

/// The number of cells asked for at once is larger than the bucket will
/// ever hold, so the batch can never conform.
///
/// The field is the largest batch that could ever conform.
#[derive(Clone, Copy, Debug, PartialEq, Eq, Structural)]
pub struct InsufficientCapacity(pub u32);

impl InsufficientCapacity {
    /// The error in words, made by `format!`: nothing is proved of the
    /// text.
    #[verifier::external_body]
    pub fn to_string(&self) -> String {
        format!("required number of cells {} exceeds bucket's capacity", self.0)
    }
}

} // verus!
