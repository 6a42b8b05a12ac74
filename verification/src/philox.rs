//! The Philox mixing kernels: widening-multiply rounds and Weyl key
//! bumps for the 2x32, 2x64, 4x32 and 4x64 variants, each with its
//! ten-round block function.

use vstd::prelude::*;

verus! {

pub type Array1x32 = [u32; 1];

pub type Array2x32 = [u32; 2];

pub type Array4x32 = [u32; 4];

pub type Array1x64 = [u64; 1];

pub type Array2x64 = [u64; 2];

pub type Array4x64 = [u64; 4];

/// Round multiplier of the two-word 64-bit variant.
pub const PHILOX_M2X64_0: u64 = 0xD2B74407B1CE6E93;

/// First round multiplier of the four-word 64-bit variant.
pub const PHILOX_M4X64_0: u64 = 0xD2E7470EE14C6C93;

/// Second round multiplier of the four-word 64-bit variant.
pub const PHILOX_M4X64_1: u64 = 0xCA5A826395121157;

/// First 64-bit Weyl increment (the golden ratio).
pub const PHILOX_W64_0: u64 = 0x9E3779B97F4A7C15;

/// Second 64-bit Weyl increment (sqrt(3) - 1).
pub const PHILOX_W64_1: u64 = 0xBB67AE8584CAA73B;

/// Round multiplier of the two-word 32-bit variant.
pub const PHILOX_M2X32_0: u32 = 0xd256d193;

/// First round multiplier of the four-word 32-bit variant.
pub const PHILOX_M4X32_0: u32 = 0xD2511F53;

/// Second round multiplier of the four-word 32-bit variant.
pub const PHILOX_M4X32_1: u32 = 0xCD9E8D57;

/// First 32-bit Weyl increment.
pub const PHILOX_W32_0: u32 = 0x9E3779B9;

/// Second 32-bit Weyl increment.
pub const PHILOX_W32_1: u32 = 0xBB67AE85;

/// The high half of the 64-bit product of two 32-bit words.
pub open spec fn spec_mulhi32(a: u32, b: u32) -> u32 {
    ((a as nat * b as nat) / 0x100000000) as u32
}

/// The low half of the 64-bit product of two 32-bit words.
pub open spec fn spec_mullo32(a: u32, b: u32) -> u32 {
    ((a as nat * b as nat) % 0x100000000) as u32
}

/// The high half of the 128-bit product of two 64-bit words.
pub open spec fn spec_mulhi64(a: u64, b: u64) -> u64 {
    ((a as nat * b as nat) / 0x10000000000000000) as u64
}

/// The low half of the 128-bit product of two 64-bit words.
pub open spec fn spec_mullo64(a: u64, b: u64) -> u64 {
    ((a as nat * b as nat) % 0x10000000000000000) as u64
}

/// Splits the double-width product `a * b` into its high and low
/// 32-bit halves; no bit of the product is lost.
pub fn mul32(a: u32, b: u32) -> (r: (u32, u32))
    ensures
        r.0 == spec_mulhi32(a, b),
        r.1 == spec_mullo32(a, b),
        r.0 as nat * 0x100000000 + r.1 as nat == a as nat * b as nat,
{
    proof {
        vstd::arithmetic::mul::lemma_mul_upper_bound(
            a as int,
            0xFFFFFFFF,
            b as int,
            0xFFFFFFFF,
        );
    }
    let prod: u64 = (a as u64) * (b as u64);
    let hi: u32 = (prod / 0x100000000) as u32;
    let lo: u32 = (prod % 0x100000000) as u32;
    (hi, lo)
}

/// Splits the double-width product `a * b` into its high and low
/// 64-bit halves; no bit of the product is lost.
pub fn mul64(a: u64, b: u64) -> (r: (u64, u64))
    ensures
        r.0 == spec_mulhi64(a, b),
        r.1 == spec_mullo64(a, b),
        r.0 as nat * 0x10000000000000000 + r.1 as nat == a as nat * b as nat,
{
    proof {
        vstd::arithmetic::mul::lemma_mul_upper_bound(
            a as int,
            0xFFFFFFFFFFFFFFFF,
            b as int,
            0xFFFFFFFFFFFFFFFF,
        );
    }
    let prod: u128 = (a as u128) * (b as u128);
    let hi: u64 = (prod / 0x10000000000000000) as u64;
    let lo: u64 = (prod % 0x10000000000000000) as u64;
    (hi, lo)
}

/// The words of a two-word 32-bit array.
pub open spec fn spec_pair32(a: Array2x32) -> (u32, u32) {
    (a[0], a[1])
}

/// The words of a four-word 32-bit array.
pub open spec fn spec_quad32(a: Array4x32) -> (u32, u32, u32, u32) {
    (a[0], a[1], a[2], a[3])
}

/// The words of a two-word 64-bit array.
pub open spec fn spec_pair64(a: Array2x64) -> (u64, u64) {
    (a[0], a[1])
}

/// The words of a four-word 64-bit array.
pub open spec fn spec_quad64(a: Array4x64) -> (u64, u64, u64, u64) {
    (a[0], a[1], a[2], a[3])
}

/// One Philox-2x32 round: the high product half is folded into the odd
/// counter word with the key, the low half becomes the even word.
pub open spec fn spec_philox_2x32round(c: (u32, u32), k: u32) -> (u32, u32) {
    (spec_mulhi32(PHILOX_M2X32_0, c.0) ^ k ^ c.1, spec_mullo32(PHILOX_M2X32_0, c.0))
}

/// One Philox-2x64 round.
pub open spec fn spec_philox_2x64round(c: (u64, u64), k: u64) -> (u64, u64) {
    (spec_mulhi64(PHILOX_M2X64_0, c.0) ^ k ^ c.1, spec_mullo64(PHILOX_M2X64_0, c.0))
}

/// One Philox-4x32 round: two widening multiplies on the even counter
/// words, whose mixed high halves and raw low halves are interleaved
/// in the fixed permutation order.
pub open spec fn spec_philox_4x32round(c: (u32, u32, u32, u32), k: (u32, u32)) -> (
    u32,
    u32,
    u32,
    u32,
) {
    (
        spec_mulhi32(PHILOX_M4X32_1, c.2) ^ c.1 ^ k.0,
        spec_mullo32(PHILOX_M4X32_1, c.2),
        spec_mulhi32(PHILOX_M4X32_0, c.0) ^ c.3 ^ k.1,
        spec_mullo32(PHILOX_M4X32_0, c.0),
    )
}

/// One Philox-4x64 round.
pub open spec fn spec_philox_4x64round(c: (u64, u64, u64, u64), k: (u64, u64)) -> (
    u64,
    u64,
    u64,
    u64,
) {
    (
        spec_mulhi64(PHILOX_M4X64_1, c.2) ^ c.1 ^ k.0,
        spec_mullo64(PHILOX_M4X64_1, c.2),
        spec_mulhi64(PHILOX_M4X64_0, c.0) ^ c.3 ^ k.1,
        spec_mullo64(PHILOX_M4X64_0, c.0),
    )
}

/// The Weyl bump of a one-word 32-bit key.
pub open spec fn spec_philox_1x32key(k: u32) -> u32 {
    k.wrapping_add(PHILOX_W32_0)
}

/// The Weyl bump of a two-word 32-bit key: a distinct increment per
/// word position.
pub open spec fn spec_philox_2x32key(k: (u32, u32)) -> (u32, u32) {
    (k.0.wrapping_add(PHILOX_W32_0), k.1.wrapping_add(PHILOX_W32_1))
}

/// The Weyl bump of a one-word 64-bit key.
pub open spec fn spec_philox_1x64key(k: u64) -> u64 {
    k.wrapping_add(PHILOX_W64_0)
}

/// The Weyl bump of a two-word 64-bit key.
pub open spec fn spec_philox_2x64key(k: (u64, u64)) -> (u64, u64) {
    (k.0.wrapping_add(PHILOX_W64_0), k.1.wrapping_add(PHILOX_W64_1))
}

pub fn philox_2x32round(ctr: Array2x32, key: Array1x32) -> (r: Array2x32)
    ensures
        spec_pair32(r) == spec_philox_2x32round(spec_pair32(ctr), key[0]),
{
    let (hi, lo) = mul32(PHILOX_M2X32_0, ctr[0]);
    [hi ^ key[0] ^ ctr[1], lo]
}

pub fn philox_2x64round(ctr: Array2x64, key: Array1x64) -> (r: Array2x64)
    ensures
        spec_pair64(r) == spec_philox_2x64round(spec_pair64(ctr), key[0]),
{
    let (hi, lo) = mul64(PHILOX_M2X64_0, ctr[0]);
    [hi ^ key[0] ^ ctr[1], lo]
}

pub fn philox_4x32round(ctr: Array4x32, key: Array2x32) -> (r: Array4x32)
    ensures
        spec_quad32(r) == spec_philox_4x32round(spec_quad32(ctr), spec_pair32(key)),
{
    let (hi0, lo0) = mul32(PHILOX_M4X32_0, ctr[0]);
    let (hi1, lo1) = mul32(PHILOX_M4X32_1, ctr[2]);
    [hi1 ^ ctr[1] ^ key[0], lo1, hi0 ^ ctr[3] ^ key[1], lo0]
}

pub fn philox_4x64round(ctr: Array4x64, key: Array2x64) -> (r: Array4x64)
    ensures
        spec_quad64(r) == spec_philox_4x64round(spec_quad64(ctr), spec_pair64(key)),
{
    let (hi0, lo0) = mul64(PHILOX_M4X64_0, ctr[0]);
    let (hi1, lo1) = mul64(PHILOX_M4X64_1, ctr[2]);
    [hi1 ^ ctr[1] ^ key[0], lo1, hi0 ^ ctr[3] ^ key[1], lo0]
}

pub fn philox_1x32key(key: Array1x32) -> (r: Array1x32)
    ensures
        r[0] == spec_philox_1x32key(key[0]),
{
    [key[0].wrapping_add(PHILOX_W32_0)]
}

pub fn philox_2x32key(key: Array2x32) -> (r: Array2x32)
    ensures
        spec_pair32(r) == spec_philox_2x32key(spec_pair32(key)),
{
    [key[0].wrapping_add(PHILOX_W32_0), key[1].wrapping_add(PHILOX_W32_1)]
}

pub fn philox_1x64key(key: Array1x64) -> (r: Array1x64)
    ensures
        r[0] == spec_philox_1x64key(key[0]),
{
    [key[0].wrapping_add(PHILOX_W64_0)]
}

pub fn philox_2x64key(key: Array2x64) -> (r: Array2x64)
    ensures
        spec_pair64(r) == spec_philox_2x64key(spec_pair64(key)),
{
    [key[0].wrapping_add(PHILOX_W64_0), key[1].wrapping_add(PHILOX_W64_1)]
}

/// The Philox-2x32-10 block function: ten rounds, the key bumped by
/// the Weyl increment before every round after the first.
pub open spec fn spec_philox_2x32(c: (u32, u32), k: u32) -> (u32, u32) {
    let c = spec_philox_2x32round(c, k);
    let k = spec_philox_1x32key(k);
    let c = spec_philox_2x32round(c, k);
    let k = spec_philox_1x32key(k);
    let c = spec_philox_2x32round(c, k);
    let k = spec_philox_1x32key(k);
    let c = spec_philox_2x32round(c, k);
    let k = spec_philox_1x32key(k);
    let c = spec_philox_2x32round(c, k);
    let k = spec_philox_1x32key(k);
    let c = spec_philox_2x32round(c, k);
    let k = spec_philox_1x32key(k);
    let c = spec_philox_2x32round(c, k);
    let k = spec_philox_1x32key(k);
    let c = spec_philox_2x32round(c, k);
    let k = spec_philox_1x32key(k);
    let c = spec_philox_2x32round(c, k);
    let k = spec_philox_1x32key(k);
    spec_philox_2x32round(c, k)
}

/// The Philox-2x64-10 block function.
pub open spec fn spec_philox_2x64(c: (u64, u64), k: u64) -> (u64, u64) {
    let c = spec_philox_2x64round(c, k);
    let k = spec_philox_1x64key(k);
    let c = spec_philox_2x64round(c, k);
    let k = spec_philox_1x64key(k);
    let c = spec_philox_2x64round(c, k);
    let k = spec_philox_1x64key(k);
    let c = spec_philox_2x64round(c, k);
    let k = spec_philox_1x64key(k);
    let c = spec_philox_2x64round(c, k);
    let k = spec_philox_1x64key(k);
    let c = spec_philox_2x64round(c, k);
    let k = spec_philox_1x64key(k);
    let c = spec_philox_2x64round(c, k);
    let k = spec_philox_1x64key(k);
    let c = spec_philox_2x64round(c, k);
    let k = spec_philox_1x64key(k);
    let c = spec_philox_2x64round(c, k);
    let k = spec_philox_1x64key(k);
    spec_philox_2x64round(c, k)
}

/// The Philox-4x32-10 block function.
pub open spec fn spec_philox_4x32(c: (u32, u32, u32, u32), k: (u32, u32)) -> (u32, u32, u32, u32) {
    let c = spec_philox_4x32round(c, k);
    let k = spec_philox_2x32key(k);
    let c = spec_philox_4x32round(c, k);
    let k = spec_philox_2x32key(k);
    let c = spec_philox_4x32round(c, k);
    let k = spec_philox_2x32key(k);
    let c = spec_philox_4x32round(c, k);
    let k = spec_philox_2x32key(k);
    let c = spec_philox_4x32round(c, k);
    let k = spec_philox_2x32key(k);
    let c = spec_philox_4x32round(c, k);
    let k = spec_philox_2x32key(k);
    let c = spec_philox_4x32round(c, k);
    let k = spec_philox_2x32key(k);
    let c = spec_philox_4x32round(c, k);
    let k = spec_philox_2x32key(k);
    let c = spec_philox_4x32round(c, k);
    let k = spec_philox_2x32key(k);
    spec_philox_4x32round(c, k)
}

/// The Philox-4x64-10 block function.
pub open spec fn spec_philox_4x64(c: (u64, u64, u64, u64), k: (u64, u64)) -> (u64, u64, u64, u64) {
    let c = spec_philox_4x64round(c, k);
    let k = spec_philox_2x64key(k);
    let c = spec_philox_4x64round(c, k);
    let k = spec_philox_2x64key(k);
    let c = spec_philox_4x64round(c, k);
    let k = spec_philox_2x64key(k);
    let c = spec_philox_4x64round(c, k);
    let k = spec_philox_2x64key(k);
    let c = spec_philox_4x64round(c, k);
    let k = spec_philox_2x64key(k);
    let c = spec_philox_4x64round(c, k);
    let k = spec_philox_2x64key(k);
    let c = spec_philox_4x64round(c, k);
    let k = spec_philox_2x64key(k);
    let c = spec_philox_4x64round(c, k);
    let k = spec_philox_2x64key(k);
    let c = spec_philox_4x64round(c, k);
    let k = spec_philox_2x64key(k);
    spec_philox_4x64round(c, k)
}

/// The Philox-2x32-10 mixing kernel.  Pure and total: the block is a
/// function of `ctr` and `key` alone, so repeated calls on the same
/// inputs yield bit-identical output.
pub fn philox_2x32(ctr: Array2x32, key: Array1x32) -> (r: Array2x32)
    ensures
        spec_pair32(r) == spec_philox_2x32(spec_pair32(ctr), key[0]),
{
    let ctr: Array2x32 = philox_2x32round(ctr, key);
    let key: Array1x32 = philox_1x32key(key);
    let ctr: Array2x32 = philox_2x32round(ctr, key);
    let key: Array1x32 = philox_1x32key(key);
    let ctr: Array2x32 = philox_2x32round(ctr, key);
    let key: Array1x32 = philox_1x32key(key);
    let ctr: Array2x32 = philox_2x32round(ctr, key);
    let key: Array1x32 = philox_1x32key(key);
    let ctr: Array2x32 = philox_2x32round(ctr, key);
    let key: Array1x32 = philox_1x32key(key);
    let ctr: Array2x32 = philox_2x32round(ctr, key);
    let key: Array1x32 = philox_1x32key(key);
    let ctr: Array2x32 = philox_2x32round(ctr, key);
    let key: Array1x32 = philox_1x32key(key);
    let ctr: Array2x32 = philox_2x32round(ctr, key);
    let key: Array1x32 = philox_1x32key(key);
    let ctr: Array2x32 = philox_2x32round(ctr, key);
    let key: Array1x32 = philox_1x32key(key);
    philox_2x32round(ctr, key)
}

/// The Philox-2x64-10 mixing kernel.
pub fn philox_2x64(ctr: Array2x64, key: Array1x64) -> (r: Array2x64)
    ensures
        spec_pair64(r) == spec_philox_2x64(spec_pair64(ctr), key[0]),
{
    let ctr: Array2x64 = philox_2x64round(ctr, key);
    let key: Array1x64 = philox_1x64key(key);
    let ctr: Array2x64 = philox_2x64round(ctr, key);
    let key: Array1x64 = philox_1x64key(key);
    let ctr: Array2x64 = philox_2x64round(ctr, key);
    let key: Array1x64 = philox_1x64key(key);
    let ctr: Array2x64 = philox_2x64round(ctr, key);
    let key: Array1x64 = philox_1x64key(key);
    let ctr: Array2x64 = philox_2x64round(ctr, key);
    let key: Array1x64 = philox_1x64key(key);
    let ctr: Array2x64 = philox_2x64round(ctr, key);
    let key: Array1x64 = philox_1x64key(key);
    let ctr: Array2x64 = philox_2x64round(ctr, key);
    let key: Array1x64 = philox_1x64key(key);
    let ctr: Array2x64 = philox_2x64round(ctr, key);
    let key: Array1x64 = philox_1x64key(key);
    let ctr: Array2x64 = philox_2x64round(ctr, key);
    let key: Array1x64 = philox_1x64key(key);
    philox_2x64round(ctr, key)
}

/// The Philox-4x32-10 mixing kernel.
pub fn philox_4x32(ctr: Array4x32, key: Array2x32) -> (r: Array4x32)
    ensures
        spec_quad32(r) == spec_philox_4x32(spec_quad32(ctr), spec_pair32(key)),
{
    let ctr: Array4x32 = philox_4x32round(ctr, key);
    let key: Array2x32 = philox_2x32key(key);
    let ctr: Array4x32 = philox_4x32round(ctr, key);
    let key: Array2x32 = philox_2x32key(key);
    let ctr: Array4x32 = philox_4x32round(ctr, key);
    let key: Array2x32 = philox_2x32key(key);
    let ctr: Array4x32 = philox_4x32round(ctr, key);
    let key: Array2x32 = philox_2x32key(key);
    let ctr: Array4x32 = philox_4x32round(ctr, key);
    let key: Array2x32 = philox_2x32key(key);
    let ctr: Array4x32 = philox_4x32round(ctr, key);
    let key: Array2x32 = philox_2x32key(key);
    let ctr: Array4x32 = philox_4x32round(ctr, key);
    let key: Array2x32 = philox_2x32key(key);
    let ctr: Array4x32 = philox_4x32round(ctr, key);
    let key: Array2x32 = philox_2x32key(key);
    let ctr: Array4x32 = philox_4x32round(ctr, key);
    let key: Array2x32 = philox_2x32key(key);
    philox_4x32round(ctr, key)
}

/// The Philox-4x64-10 mixing kernel.
pub fn philox_4x64(ctr: Array4x64, key: Array2x64) -> (r: Array4x64)
    ensures
        spec_quad64(r) == spec_philox_4x64(spec_quad64(ctr), spec_pair64(key)),
{
    let ctr: Array4x64 = philox_4x64round(ctr, key);
    let key: Array2x64 = philox_2x64key(key);
    let ctr: Array4x64 = philox_4x64round(ctr, key);
    let key: Array2x64 = philox_2x64key(key);
    let ctr: Array4x64 = philox_4x64round(ctr, key);
    let key: Array2x64 = philox_2x64key(key);
    let ctr: Array4x64 = philox_4x64round(ctr, key);
    let key: Array2x64 = philox_2x64key(key);
    let ctr: Array4x64 = philox_4x64round(ctr, key);
    let key: Array2x64 = philox_2x64key(key);
    let ctr: Array4x64 = philox_4x64round(ctr, key);
    let key: Array2x64 = philox_2x64key(key);
    let ctr: Array4x64 = philox_4x64round(ctr, key);
    let key: Array2x64 = philox_2x64key(key);
    let ctr: Array4x64 = philox_4x64round(ctr, key);
    let key: Array2x64 = philox_2x64key(key);
    let ctr: Array4x64 = philox_4x64round(ctr, key);
    let key: Array2x64 = philox_2x64key(key);
    philox_4x64round(ctr, key)
}

} // verus!
