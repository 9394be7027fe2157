//! The two prime fields the hashes are defined over.

use crate::uint256::Uint256;
use vstd::prelude::*;

verus! {

/// The order of the BN254 scalar field.
pub open spec fn bn254_modulus() -> nat {
    0x30644e72e131a029b85045b68181585d2833e84879b9709143e1f593f0000001nat
}

/// The order of the BLS12-381 scalar field.
pub open spec fn bls12_381_modulus() -> nat {
    0x73eda753299d7d483339d80809a1d80553bda402fffe5bfeffffffff00000001nat
}

/// The order of the field that the host knows by `symbol`.
pub open spec fn field_order(symbol: Seq<char>) -> nat {
    if symbol == "BN254"@ {
        bn254_modulus()
    } else {
        bls12_381_modulus()
    }
}

/// Each number of a sequence, reduced modulo `order`.
pub open spec fn reduced(xs: Seq<nat>, order: nat) -> Seq<nat> {
    Seq::new(xs.len(), |i: int| xs[i] % order)
}

/// A supported prime field: its modulus, and the symbol by which the host
/// knows it.
#[derive(Clone, Copy, Debug, PartialEq, Eq, Structural)]
pub enum Field {
    /// The scalar field of BN254.
    Bn254,
    /// The scalar field of BLS12-381.
    Bls12381,
}

impl Field {
    /// The field's modulus.
    pub open spec fn spec_modulus(self) -> nat {
        match self {
            Field::Bn254 => bn254_modulus(),
            Field::Bls12381 => bls12_381_modulus(),
        }
    }

    /// The field's symbol.
    pub open spec fn spec_symbol(self) -> Seq<char> {
        match self {
            Field::Bn254 => "BN254"@,
            Field::Bls12381 => "BLS12_381"@,
        }
    }

    /// The field's modulus.
    pub fn modulus(&self) -> (m: Uint256)
        ensures
            m@ == self.spec_modulus(),
    {
        match self {
            Field::Bn254 => Uint256::from_parts(
                0x30644e72e131a029,
                0xb85045b68181585d,
                0x2833e84879b97091,
                0x43e1f593f0000001,
            ),
            Field::Bls12381 => Uint256::from_parts(
                0x73eda753299d7d48,
                0x3339d80809a1d805,
                0x53bda402fffe5bfe,
                0xffffffff00000001,
            ),
        }
    }

    /// The symbol that names the field to the host.
    pub fn symbol(&self) -> (s: &'static str)
        ensures
            s@ == self.spec_symbol(),
    {
        match self {
            Field::Bn254 => "BN254",
            Field::Bls12381 => "BLS12_381",
        }
    }
}

/// The host knows each field by its own symbol, and so by its own modulus.
pub proof fn lemma_field_order(field: Field)
    ensures
        field_order(field.spec_symbol()) == field.spec_modulus(),
        field.spec_symbol() == "BN254"@ || field.spec_symbol() == "BLS12_381"@,
{
    reveal_strlit("BN254");
    reveal_strlit("BLS12_381");
    assert("BN254"@.len() != "BLS12_381"@.len());
}

} // verus!
