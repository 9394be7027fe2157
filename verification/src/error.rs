//! The faults of a hash computation.

use crate::uint256::Uint256;
use vstd::prelude::*;

verus! {

/// Why a hash was not computed. Each is a fault of the request: nothing is
/// retried, and no partial result is returned.
#[derive(Clone, Copy, Debug, PartialEq, Eq, Structural)]
pub enum PoseidonError {
    /// Poseidon was asked to hash no elements at all.
    EmptyInput,
    /// There are more inputs than the rate of the sponge, which is its width
    /// less one.
    InputExceedsRate,
    /// An input to Poseidon2 is not below the field's modulus.
    FieldElementOutOfRange,
    /// The table has no parameters for the requested width.
    UnsupportedParameters,
}

/// The result of a hash computation, by the number that the digest stands for.
pub open spec fn outcome(r: Result<Uint256, PoseidonError>) -> Result<nat, PoseidonError> {
    match r {
        Ok(digest) => Ok(digest@),
        Err(e) => Err(e),
    }
}

} // verus!
