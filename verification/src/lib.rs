//! Poseidon and Poseidon2 sponge hashes over the BN254 and BLS12-381 scalar
//! fields, on top of the permutation primitives of the Soroban host.
//!
//! A hash takes a short sequence of field elements, writes it into the rate of
//! a state of fixed width, has the host permute the state once, and returns the
//! first element. [`poseidon_hash`] and [`poseidon2_hash`] do one hash;
//! [`PoseidonSponge`] and [`Poseidon2Sponge`] keep the parameters for many.

use vstd::prelude::*;

pub mod error;
pub mod field;
pub mod host;
pub mod poseidon;
pub mod poseidon2;
pub mod table;
pub mod uint256;

pub use error::PoseidonError;
pub use field::Field;
pub use poseidon::{PoseidonConfig, PoseidonSponge};
pub use poseidon2::{Poseidon2Config, Poseidon2Sponge};
pub use uint256::Uint256;

verus! {

/// What [`poseidon_hash`] answers: a width without parameters is refused
/// first, then the sponge of that width answers.
pub open spec fn poseidon_hash_outcome(field: Field, width: u32, inputs: Seq<nat>) -> Result<
    nat,
    PoseidonError,
> {
    if !poseidon::params::supported_width(width) {
        Err(PoseidonError::UnsupportedParameters)
    } else {
        poseidon::sponge::poseidon_outcome(field, width, inputs)
    }
}

/// What [`poseidon2_hash`] answers: a width without parameters is refused
/// first, then the sponge of that width answers.
pub open spec fn poseidon2_hash_outcome(field: Field, width: u32, inputs: Seq<nat>) -> Result<
    nat,
    PoseidonError,
> {
    if !poseidon2::params::supported_width(width) {
        Err(PoseidonError::UnsupportedParameters)
    } else {
        poseidon2::sponge::poseidon2_outcome(field, width, inputs)
    }
}

/// The Poseidon hash of `inputs` over `field`, with a state of `width`
/// elements, as circom computes it. The width is from 2 to 6, and the inputs
/// are at least one and at most the width less one; the inputs reduced modulo
/// the field's modulus have the same digest.
pub fn poseidon_hash(
    env: &soroban_sdk::Env,
    field: Field,
    width: u32,
    inputs: &Vec<Uint256>,
) -> (r: Result<Uint256, PoseidonError>)
    ensures
        error::outcome(r) == poseidon_hash_outcome(field, width, uint256::values(inputs@)),
        error::outcome(r) == poseidon_hash_outcome(
            field,
            width,
            field::reduced(uint256::values(inputs@), field.spec_modulus()),
        ),
        r is Ok ==> r->Ok_0@ < field.spec_modulus(),
{
    let mut sponge = match PoseidonSponge::new(env, field, width) {
        Ok(sponge) => sponge,
        Err(e) => {
            return Err(e);
        },
    };
    sponge.compute_hash(inputs)
}

/// The Poseidon2 hash of `inputs` over `field`, with a state of `width`
/// elements, as noir computes it. The width is from 2 to 4, the inputs are at
/// most the width less one, and each is below the field's modulus.
pub fn poseidon2_hash(
    env: &soroban_sdk::Env,
    field: Field,
    width: u32,
    inputs: &Vec<Uint256>,
) -> (r: Result<Uint256, PoseidonError>)
    ensures
        error::outcome(r) == poseidon2_hash_outcome(field, width, uint256::values(inputs@)),
        r is Ok ==> r->Ok_0@ < field.spec_modulus(),
{
    let mut sponge = match Poseidon2Sponge::new(env, field, width) {
        Ok(sponge) => sponge,
        Err(e) => {
            return Err(e);
        },
    };
    sponge.compute_hash(inputs)
}

/// One hash through [`poseidon_hash`] answers what a sponge of the same field
/// and width answers, however many hashes that sponge has done before.
pub proof fn lemma_poseidon_hash_is_sponge_hash(sponge: PoseidonSponge, inputs: Seq<nat>)
    requires
        sponge.wf(),
    ensures
        poseidon_hash_outcome(sponge.field(), sponge.width(), inputs)
            == poseidon::sponge::poseidon_outcome(sponge.field(), sponge.width(), inputs),
{
    sponge.lemma_width_supported();
}

/// One hash through [`poseidon2_hash`] answers what a sponge of the same field
/// and width answers, however many hashes that sponge has done before.
pub proof fn lemma_poseidon2_hash_is_sponge_hash(sponge: Poseidon2Sponge, inputs: Seq<nat>)
    requires
        sponge.wf(),
    ensures
        poseidon2_hash_outcome(sponge.field(), sponge.width(), inputs)
            == poseidon2::sponge::poseidon2_outcome(sponge.field(), sponge.width(), inputs),
{
    sponge.lemma_width_supported();
}

} // verus!
