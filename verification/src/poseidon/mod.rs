//! The Poseidon hash, as circom instantiates it.

pub mod params;
pub mod sponge;

pub use sponge::{PoseidonConfig, PoseidonSponge};
