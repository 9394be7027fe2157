//! The Poseidon2 hash, as noir instantiates it.

pub mod params;
pub mod sponge;

pub use sponge::{Poseidon2Config, Poseidon2Sponge};
