//! Constant tables of 256-bit numbers, and how they become host vectors.
//!
//! A table is a flat run of entries, row after row; an entry is the four
//! 64-bit limbs of a number, most significant first.

use crate::host::{
    elements, matrix_new, matrix_push_back, rows, vec_new, vec_push_back, HostMatrix, HostVec,
};
use crate::uint256::{limbs_value, Uint256};
use vstd::prelude::*;

verus! {

/// One entry of a table.
pub type Limbs = (u64, u64, u64, u64);

/// The number that an entry stands for.
pub open spec fn entry_value(entry: Limbs) -> nat {
    limbs_value(entry.0, entry.1, entry.2, entry.3)
}

/// The numbers of a table, in order.
pub open spec fn line(flat: Seq<Limbs>) -> Seq<nat> {
    Seq::new(flat.len(), |k: int| entry_value(flat[k]))
}

/// A table read as `height` rows of `width` numbers each.
pub open spec fn grid(flat: Seq<Limbs>, height: nat, width: nat) -> Seq<Seq<nat>> {
    Seq::new(height, |r: int| Seq::new(width, |c: int| entry_value(flat[r * width + c])))
}

/// The entries `from .. from + count` of a table as a host vector.
fn host_row(env: &soroban_sdk::Env, flat: &[Limbs], from: usize, count: u32) -> (row: HostVec)
    requires
        from + count <= flat.len(),
    ensures
        elements(row) == Seq::new(count as nat, |c: int| entry_value(flat@[from + c])),
{
    let mut row = vec_new(env);
    let mut c: u32 = 0;
    while c < count
        invariant
            c <= count,
            from + count <= flat.len(),
            elements(row) == Seq::new(c as nat, |j: int| entry_value(flat@[from + j])),
        decreases count - c,
    {
        let entry = flat[from + c as usize];
        let x = Uint256::from_parts(entry.0, entry.1, entry.2, entry.3);
        vec_push_back(&mut row, &x);
        c += 1;
        assert(elements(row) =~= Seq::new(c as nat, |j: int| entry_value(flat@[from + j])));
    }
    row
}

/// A whole table as one host vector.
pub(crate) fn host_vector(env: &soroban_sdk::Env, flat: &[Limbs]) -> (v: HostVec)
    requires
        flat.len() <= u32::MAX,
    ensures
        elements(v) == line(flat@),
{
    let v = host_row(env, flat, 0, flat.len() as u32);
    assert(elements(v) =~= line(flat@));
    v
}

/// A table as a host matrix of `height` rows of `width` numbers each.
pub(crate) fn host_matrix(env: &soroban_sdk::Env, flat: &[Limbs], height: u32, width: u32) -> (m:
    HostMatrix)
    requires
        flat.len() == height * width,
    ensures
        rows(m) == grid(flat@, height as nat, width as nat),
{
    let mut m = matrix_new(env);
    let mut r: u32 = 0;
    while r < height
        invariant
            r <= height,
            flat.len() == height * width,
            rows(m) == grid(flat@, r as nat, width as nat),
        decreases height - r,
    {
        assert(r * width + width <= height * width) by (nonlinear_arith)
            requires
                r < height,
        ;
        let from = r as usize * width as usize;
        let row = host_row(env, flat, from, width);
        matrix_push_back(&mut m, &row);
        r += 1;
        assert(rows(m) =~= grid(flat@, r as nat, width as nat));
    }
    m
}

} // verus!
