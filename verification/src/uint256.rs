//! A 256-bit unsigned integer held as four 64-bit limbs.

use vstd::prelude::*;

verus! {

/// The number that four 64-bit limbs stand for, most significant limb first.
pub open spec fn limbs_value(hi_hi: u64, hi_lo: u64, lo_hi: u64, lo_lo: u64) -> nat {
    (hi_hi as nat) * 0x1_0000_0000_0000_0000_0000_0000_0000_0000_0000_0000_0000_0000nat
        + (hi_lo as nat) * 0x1_0000_0000_0000_0000_0000_0000_0000_0000nat
        + (lo_hi as nat) * 0x1_0000_0000_0000_0000nat
        + (lo_lo as nat)
}

/// The number that eight bytes starting at `at` stand for, read big-endian.
pub open spec fn be_limb(bytes: Seq<u8>, at: int) -> nat {
    (bytes[at] as nat) * 0x100_0000_0000_0000nat
        + (bytes[at + 1] as nat) * 0x1_0000_0000_0000nat
        + (bytes[at + 2] as nat) * 0x100_0000_0000nat
        + (bytes[at + 3] as nat) * 0x1_0000_0000nat
        + (bytes[at + 4] as nat) * 0x100_0000nat
        + (bytes[at + 5] as nat) * 0x1_0000nat
        + (bytes[at + 6] as nat) * 0x100nat
        + (bytes[at + 7] as nat)
}

/// The number that 32 bytes stand for, read big-endian.
pub open spec fn be_bytes_value(bytes: Seq<u8>) -> nat
    recommends
        bytes.len() == 32,
{
    be_limb(bytes, 0) * 0x1_0000_0000_0000_0000_0000_0000_0000_0000_0000_0000_0000_0000nat
        + be_limb(bytes, 8) * 0x1_0000_0000_0000_0000_0000_0000_0000_0000nat
        + be_limb(bytes, 16) * 0x1_0000_0000_0000_0000nat
        + be_limb(bytes, 24)
}

/// An unsigned integer below 2^256.
#[derive(Clone, Copy, Debug, PartialEq, Eq, Structural)]
pub struct Uint256 {
    pub hi_hi: u64,
    pub hi_lo: u64,
    pub lo_hi: u64,
    pub lo_lo: u64,
}

impl View for Uint256 {
    type V = nat;

    open spec fn view(&self) -> nat {
        limbs_value(self.hi_hi, self.hi_lo, self.lo_hi, self.lo_lo)
    }
}

/// The numbers that a sequence of values stands for.
pub open spec fn values(xs: Seq<Uint256>) -> Seq<nat> {
    Seq::new(xs.len(), |i: int| xs[i]@)
}

/// Reads eight bytes of `bytes`, starting at `at`, as one big-endian limb.
fn read_limb(bytes: &[u8; 32], at: usize) -> (limb: u64)
    requires
        at + 8 <= 32,
    ensures
        limb == be_limb(bytes@, at as int),
{
    let b0: u64 = bytes[at] as u64;
    let b1: u64 = bytes[at + 1] as u64;
    let b2: u64 = bytes[at + 2] as u64;
    let b3: u64 = bytes[at + 3] as u64;
    let b4: u64 = bytes[at + 4] as u64;
    let b5: u64 = bytes[at + 5] as u64;
    let b6: u64 = bytes[at + 6] as u64;
    let b7: u64 = bytes[at + 7] as u64;
    b0 * 0x100_0000_0000_0000 + b1 * 0x1_0000_0000_0000 + b2 * 0x100_0000_0000 + b3
        * 0x1_0000_0000 + b4 * 0x100_0000 + b5 * 0x1_0000 + b6 * 0x100 + b7
}

impl Uint256 {
    /// The value with the given limbs, most significant first.
    pub fn from_parts(hi_hi: u64, hi_lo: u64, lo_hi: u64, lo_lo: u64) -> (r: Uint256)
        ensures
            r == (Uint256 { hi_hi, hi_lo, lo_hi, lo_lo }),
            r@ == limbs_value(hi_hi, hi_lo, lo_hi, lo_lo),
    {
        Uint256 { hi_hi, hi_lo, lo_hi, lo_lo }
    }

    /// The value of a 32-bit integer.
    pub fn from_u32(u: u32) -> (r: Uint256)
        ensures
            r@ == u,
    {
        Uint256 { hi_hi: 0, hi_lo: 0, lo_hi: 0, lo_lo: u as u64 }
    }

    /// The value of 32 big-endian bytes.
    pub fn from_be_bytes(bytes: &[u8; 32]) -> (r: Uint256)
        ensures
            r@ == be_bytes_value(bytes@),
    {
        Uint256 {
            hi_hi: read_limb(bytes, 0),
            hi_lo: read_limb(bytes, 8),
            lo_hi: read_limb(bytes, 16),
            lo_lo: read_limb(bytes, 24),
        }
    }

    /// Whether this value is strictly below `other`.
    pub fn lt(&self, other: &Uint256) -> (r: bool)
        ensures
            r == (self@ < other@),
    {
        if self.hi_hi != other.hi_hi {
            self.hi_hi < other.hi_hi
        } else if self.hi_lo != other.hi_lo {
            self.hi_lo < other.hi_lo
        } else if self.lo_hi != other.lo_hi {
            self.lo_hi < other.lo_hi
        } else {
            self.lo_lo < other.lo_lo
        }
    }
}

/// Two values that stand for the same number are the same value.
pub proof fn lemma_view_injective(a: Uint256, b: Uint256)
    requires
        a@ == b@,
    ensures
        a == b,
{
    lemma_limbs_order(a, b);
    lemma_limbs_order(b, a);
}

/// The order of two values is the lexicographic order of their limbs.
pub proof fn lemma_limbs_order(a: Uint256, b: Uint256)
    ensures
        a@ < b@ <==> (a.hi_hi < b.hi_hi || (a.hi_hi == b.hi_hi && (a.hi_lo < b.hi_lo || (a.hi_lo
            == b.hi_lo && (a.lo_hi < b.lo_hi || (a.lo_hi == b.lo_hi && a.lo_lo < b.lo_lo)))))),
        a@ < 0x1_0000_0000_0000_0000_0000_0000_0000_0000_0000_0000_0000_0000_0000_0000_0000_0000nat,
{
}

} // verus!
