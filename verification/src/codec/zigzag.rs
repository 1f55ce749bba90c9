//! Zigzag mapping between signed and unsigned integers, which keeps values
//! near zero small whatever their sign.

use vstd::prelude::*;

verus! {

/// Zigzag of a 64-bit value: `0, -1, 1, -2, ..` go to `0, 1, 2, 3, ..`.
pub open spec fn zigzag64(i: i64) -> u64 {
    if i >= 0 {
        (2 * i) as u64
    } else {
        (-2 * i - 1) as u64
    }
}

/// Inverse of [`zigzag64`].
pub open spec fn unzigzag64(u: u64) -> i64 {
    if u % 2 == 0 {
        (u / 2) as i64
    } else {
        (-(u / 2) - 1) as i64
    }
}

/// Zigzag of a 32-bit value.
pub open spec fn zigzag32(i: i32) -> u32 {
    if i >= 0 {
        (2 * i) as u32
    } else {
        (-2 * i - 1) as u32
    }
}

/// Inverse of [`zigzag32`].
pub open spec fn unzigzag32(u: u32) -> i32 {
    if u % 2 == 0 {
        (u / 2) as i32
    } else {
        (-(u / 2) - 1) as i32
    }
}

/// Zigzag is a bijection: each mapping undoes the other.
pub proof fn lemma_zigzag_inverse()
    ensures
        forall|i: i64| unzigzag64(#[trigger] zigzag64(i)) == i,
        forall|u: u64| zigzag64(#[trigger] unzigzag64(u)) == u,
        forall|i: i32| unzigzag32(#[trigger] zigzag32(i)) == i,
        forall|u: u32| zigzag32(#[trigger] unzigzag32(u)) == u,
{
}

/// `(i << 1) ^ (i >> 63)`, read as unsigned.
pub fn zigzag_i64(i: i64) -> (u: u64)
    ensures
        u == zigzag64(i),
{
    assert(((i << 1) ^ (i >> 63)) as u64 == (if i >= 0 {
        (2 * i) as u64
    } else {
        (-2 * i - 1) as u64
    })) by (bit_vector);
    #[verifier::truncate]
    (((i << 1) ^ (i >> 63)) as u64)
}

/// `(u >> 1) ^ -(u & 1)`, read as signed.
pub fn unzigzag_i64(u: u64) -> (i: i64)
    ensures
        i == unzigzag64(u),
{
    assert((((u >> 1) as i64) ^ (-((u & 1) as i64)) as i64) == (if u % 2 == 0 {
        (u / 2) as i64
    } else {
        (-(u / 2) - 1) as i64
    })) by (bit_vector);
    assert(u & 1 <= 1) by (bit_vector);
    assert(u >> 1 <= 0x7fff_ffff_ffff_ffff) by (bit_vector);
    ((u >> 1) as i64) ^ (-((u & 1) as i64))
}

/// `(i << 1) ^ (i >> 31)`, read as unsigned.
pub fn zigzag_i32(i: i32) -> (u: u32)
    ensures
        u == zigzag32(i),
{
    assert(((i << 1) ^ (i >> 31)) as u32 == (if i >= 0 {
        (2 * i) as u32
    } else {
        (-2 * i - 1) as u32
    })) by (bit_vector);
    #[verifier::truncate]
    (((i << 1) ^ (i >> 31)) as u32)
}

/// `(u >> 1) ^ -(u & 1)`, read as signed.
pub fn unzigzag_i32(u: u32) -> (i: i32)
    ensures
        i == unzigzag32(u),
{
    assert((((u >> 1) as i32) ^ (-((u & 1) as i32)) as i32) == (if u % 2 == 0 {
        (u / 2) as i32
    } else {
        (-(u / 2) - 1) as i32
    })) by (bit_vector);
    assert(u & 1 <= 1) by (bit_vector);
    assert(u >> 1 <= 0x7fff_ffff) by (bit_vector);
    ((u >> 1) as i32) ^ (-((u & 1) as i32))
}

} // verus!
