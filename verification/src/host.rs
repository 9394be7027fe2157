//! The Soroban host as this library sees it.
//!
//! Everything here is believed, not proved: the declarations say what the
//! Soroban SDK and host do. Vectors live in the host; a handle to one stands for
//! the numbers it holds, and every handle a sponge uses is made in the one
//! environment that the sponge holds. The host meters its work, and gives up
//! on an environment whose budget is spent.

use crate::field::{field_order, reduced};
use crate::uint256::{be_bytes_value, Uint256};
use vstd::prelude::*;

verus! {

/// The handle of a host environment, `soroban_sdk::Env`. Opaque: it is only
/// handed on to the host.
#[verifier::external_type_specification]
#[verifier::external_body]
pub struct ExEnv(soroban_sdk::Env);

/// The SDK's 256-bit unsigned integer, `soroban_sdk::U256`: a handle to a host
/// value. It only occurs as the item type of host vectors.
#[verifier::external_type_specification]
#[verifier::external_body]
pub struct ExHostU256(soroban_sdk::U256);

/// The SDK's vector, `soroban_sdk::Vec`: a handle to an immutable host vector.
#[verifier::external_type_specification]
#[verifier::external_body]
#[verifier::reject_recursive_types(T)]
pub struct ExHostVec<T>(soroban_sdk::Vec<T>);

/// A host vector of 256-bit integers.
pub type HostVec = soroban_sdk::Vec<soroban_sdk::U256>;

/// A host vector of host vectors of 256-bit integers.
pub type HostMatrix = soroban_sdk::Vec<soroban_sdk::Vec<soroban_sdk::U256>>;

/// The numbers that a host vector holds, in order.
pub uninterp spec fn elements(v: soroban_sdk::Vec<soroban_sdk::U256>) -> Seq<nat>;

/// The rows that a host matrix holds, in order, each as the numbers it holds.
pub uninterp spec fn rows(m: soroban_sdk::Vec<soroban_sdk::Vec<soroban_sdk::U256>>) -> Seq<
    Seq<nat>,
>;

/// What the host's Poseidon permutation returns for the given state and
/// parameters.
pub uninterp spec fn poseidon_permutation_output(
    input: Seq<nat>,
    field: Seq<char>,
    t: u32,
    d: u32,
    rounds_f: u32,
    rounds_p: u32,
    mds: Seq<Seq<nat>>,
    round_constants: Seq<Seq<nat>>,
) -> Seq<nat>;

/// What the host's Poseidon2 permutation returns for the given state and
/// parameters.
pub uninterp spec fn poseidon2_permutation_output(
    input: Seq<nat>,
    field: Seq<char>,
    t: u32,
    d: u32,
    rounds_f: u32,
    rounds_p: u32,
    mat_internal_diag_m_1: Seq<nat>,
    round_constants: Seq<Seq<nat>>,
) -> Seq<nat>;

/// `Env::clone`: another handle to the same host environment.
#[verifier::external_body]
pub(crate) fn env_clone(env: &soroban_sdk::Env) -> (copy: soroban_sdk::Env) {
    env.clone()
}

/// `Vec::new`: an empty host vector.
#[verifier::external_body]
pub(crate) fn vec_new(env: &soroban_sdk::Env) -> (v: HostVec)
    ensures
        elements(v) == Seq::<nat>::empty(),
{
    soroban_sdk::Vec::new(env)
}

/// `Vec::push_back` of the host integer that `U256::from_parts` makes of the
/// limbs of `x`: the vector grows by that number at its end.
#[verifier::external_body]
pub(crate) fn vec_push_back(v: &mut HostVec, x: &Uint256)
    requires
        elements(*old(v)).len() < u32::MAX,
    ensures
        elements(*final(v)) == elements(*old(v)).push(x@),
{
    let item = soroban_sdk::U256::from_parts(v.env(), x.hi_hi, x.hi_lo, x.lo_hi, x.lo_lo);
    v.push_back(item);
}

/// `Vec::set` with the host integer that `U256::from_parts` makes of the limbs
/// of `x`: the item at `i` becomes that number. The host fails on an index out
/// of bounds.
#[verifier::external_body]
pub(crate) fn vec_set(v: &mut HostVec, i: u32, x: &Uint256)
    requires
        i < elements(*old(v)).len(),
    ensures
        elements(*final(v)) == elements(*old(v)).update(i as int, x@),
{
    let item = soroban_sdk::U256::from_parts(v.env(), x.hi_hi, x.hi_lo, x.lo_hi, x.lo_lo);
    v.set(i, item);
}

/// `Vec::get_unchecked`, then `U256::to_be_bytes`: the 32 big-endian bytes of
/// the item at `i`. The host fails on an index out of bounds.
#[verifier::external_body]
pub(crate) fn vec_get_unchecked(v: &HostVec, i: u32) -> (bytes: [u8; 32])
    requires
        i < elements(*v).len(),
    ensures
        be_bytes_value(bytes@) == elements(*v)[i as int],
{
    let mut bytes = [0u8; 32];
    v.get_unchecked(i).to_be_bytes().copy_into_slice(&mut bytes);
    bytes
}

/// `Vec::new` for a vector of vectors: a host matrix without rows.
#[verifier::external_body]
pub(crate) fn matrix_new(env: &soroban_sdk::Env) -> (m: HostMatrix)
    ensures
        rows(m) == Seq::<Seq<nat>>::empty(),
{
    soroban_sdk::Vec::new(env)
}

/// `Vec::push_back` on a vector of vectors: the matrix grows by `row` at its
/// end.
#[verifier::external_body]
pub(crate) fn matrix_push_back(m: &mut HostMatrix, row: &HostVec)
    requires
        rows(*old(m)).len() < u32::MAX,
    ensures
        rows(*final(m)) == rows(*old(m)).push(elements(*row)),
{
    m.push_back(row.clone());
}

/// `CryptoHazmat::poseidon_permutation`. The host fails unless the field is
/// one of the two it knows, the S-box degree is 5, `rounds_f` is even, the
/// state has `t` items, the MDS matrix is `t` by `t` and there is one row of
/// `t` round constants for each round. It reads each number of the state
/// modulo the field's order, so the state reduced gives the same result, and
/// it returns `t` numbers, each reduced modulo the field's order.
#[verifier::external_body]
pub(crate) fn poseidon_permutation(
    env: &soroban_sdk::Env,
    input: &HostVec,
    field: &str,
    t: u32,
    d: u32,
    rounds_f: u32,
    rounds_p: u32,
    mds: &HostMatrix,
    round_constants: &HostMatrix,
) -> (out: HostVec)
    requires
        field@ == "BN254"@ || field@ == "BLS12_381"@,
        d == 5,
        t >= 1,
        rounds_f % 2 == 0,
        rounds_f + rounds_p <= u32::MAX,
        elements(*input).len() == t,
        rows(*mds).len() == t,
        forall|i: int| 0 <= i < t ==> (#[trigger] rows(*mds)[i]).len() == t,
        rows(*round_constants).len() == rounds_f + rounds_p,
        forall|i: int|
            0 <= i < rounds_f + rounds_p ==> (#[trigger] rows(*round_constants)[i]).len() == t,
    ensures
        elements(out) == poseidon_permutation_output(
            elements(*input),
            field@,
            t,
            d,
            rounds_f,
            rounds_p,
            rows(*mds),
            rows(*round_constants),
        ),
        elements(out) == poseidon_permutation_output(
            reduced(elements(*input), field_order(field@)),
            field@,
            t,
            d,
            rounds_f,
            rounds_p,
            rows(*mds),
            rows(*round_constants),
        ),
        elements(out).len() == t,
        forall|i: int| 0 <= i < t ==> (#[trigger] elements(out)[i]) < field_order(field@),
{
    let field = soroban_sdk::Symbol::new(env, field);
    env.crypto_hazmat().poseidon_permutation(
        input,
        field,
        t,
        d,
        rounds_f,
        rounds_p,
        mds,
        round_constants,
    )
}

/// `CryptoHazmat::poseidon2_permutation`. The host fails unless the field is
/// one of the two it knows, the S-box degree is 5, `rounds_f` is even, `t` is
/// a width it has matrices for, the state and the diagonal have `t` items and
/// there is one row of `t` round constants for each round. It returns `t`
/// numbers, each reduced modulo the field's order.
#[verifier::external_body]
pub(crate) fn poseidon2_permutation(
    env: &soroban_sdk::Env,
    input: &HostVec,
    field: &str,
    t: u32,
    d: u32,
    rounds_f: u32,
    rounds_p: u32,
    mat_internal_diag_m_1: &HostVec,
    round_constants: &HostMatrix,
) -> (out: HostVec)
    requires
        field@ == "BN254"@ || field@ == "BLS12_381"@,
        d == 5,
        t == 2 || t == 3 || t == 4 || t == 8 || t == 12 || t == 16 || t == 20 || t == 24,
        rounds_f % 2 == 0,
        rounds_f + rounds_p <= u32::MAX,
        elements(*input).len() == t,
        elements(*mat_internal_diag_m_1).len() == t,
        rows(*round_constants).len() == rounds_f + rounds_p,
        forall|i: int|
            0 <= i < rounds_f + rounds_p ==> (#[trigger] rows(*round_constants)[i]).len() == t,
    ensures
        elements(out) == poseidon2_permutation_output(
            elements(*input),
            field@,
            t,
            d,
            rounds_f,
            rounds_p,
            elements(*mat_internal_diag_m_1),
            rows(*round_constants),
        ),
        elements(out).len() == t,
        forall|i: int| 0 <= i < t ==> (#[trigger] elements(out)[i]) < field_order(field@),
{
    let field = soroban_sdk::Symbol::new(env, field);
    env.crypto_hazmat().poseidon2_permutation(
        input,
        field,
        t,
        d,
        rounds_f,
        rounds_p,
        mat_internal_diag_m_1,
        round_constants,
    )
}

} // verus!
