//! Counter-based pseudo-random number generators of the Threefry and
//! Philox families: pure mixing kernels that map a (counter, key) pair to
//! a block of pseudo-random words, block cores that advance the counter,
//! and streaming adapters that serve the blocks word by word.

pub mod philox;
pub mod rng;
pub mod threefry;

use vstd::prelude::*;

pub use crate::threefry::Array2x64;

use crate::threefry::{rand, spec_ctr_inc, spec_pair, spec_threefry_block};

verus! {

/// A minimal, unbuffered Threefry-2x64 generator: every request
/// generates a fresh block, serves its first word, and discards the
/// second.  The buffered adapter lives in the `threefry` module.
#[derive(Clone, Copy, Debug)]
pub struct ThreeFryRng {
    pub ctr: Array2x64,
    pub key: Array2x64,
}

/// The counter after `n` increments.
pub open spec fn spec_ctr_inc_n(c: (u64, u64), n: nat) -> (u64, u64)
    decreases n,
{
    if n == 0 {
        c
    } else {
        spec_ctr_inc(spec_ctr_inc_n(c, (n - 1) as nat))
    }
}

/// The Threefry-2x64-20 mixing kernel: the block that belongs to this
/// counter and key.  Pure and total: the result is a function of `ctr`
/// and `key` alone, so repeated calls on the same inputs yield
/// bit-identical output.
pub fn generate(ctr: Array2x64, key: Array2x64) -> (r: Array2x64)
    ensures
        spec_pair(r) == spec_threefry_block(spec_pair(ctr), spec_pair(key)),
{
    let mut out: Array2x64 = [0, 0];
    rand(ctr, key, &mut out);
    out
}

impl ThreeFryRng {
    /// Serves the first word of the block at the current counter, then
    /// advances the counter by one (carry from word 0 into word 1).
    pub fn next_u64(&mut self) -> (r: u64)
        ensures
            r == spec_threefry_block(spec_pair(old(self).ctr), spec_pair(old(self).key)).0,
            spec_pair(final(self).ctr) == spec_ctr_inc(spec_pair(old(self).ctr)),
            final(self).key == old(self).key,
    {
        let block: Array2x64 = generate(self.ctr, self.key);
        self.ctr[0] = self.ctr[0].wrapping_add(1);
        if self.ctr[0] == 0 {
            self.ctr[1] = self.ctr[1].wrapping_add(1);
        }
        block[0]
    }

    /// Serves the next word truncated to its low 32 bits.
    pub fn next_u32(&mut self) -> (r: u32)
        ensures
            r == spec_threefry_block(spec_pair(old(self).ctr), spec_pair(old(self).key)).0 as u32,
            spec_pair(final(self).ctr) == spec_ctr_inc(spec_pair(old(self).ctr)),
            final(self).key == old(self).key,
    {
        let w: u64 = self.next_u64();
        #[verifier::truncate] (w as u32)
    }

    /// Fills `dest` with the little-endian bytes of consecutive words:
    /// byte `j` comes from byte `j % 8` of the word that the request
    /// `j / 8` would serve.  The counter advances by one for every
    /// started group of eight bytes.
    pub fn fill_bytes(&mut self, dest: &mut Vec<u8>)
        ensures
            final(dest)@.len() == old(dest)@.len(),
            final(self).key == old(self).key,
            spec_pair(final(self).ctr) == spec_ctr_inc_n(
                spec_pair(old(self).ctr),
                ((old(dest)@.len() + 7) / 8) as nat,
            ),
            forall|j: int|
                0 <= j < old(dest)@.len() ==> final(dest)@[j] == vstd::bytes::spec_u64_to_le_bytes(
                    spec_threefry_block(
                        spec_ctr_inc_n(spec_pair(old(self).ctr), (j / 8) as nat),
                        spec_pair(old(self).key),
                    ).0,
                )[j % 8],
    {
        let ghost c0 = spec_pair(self.ctr);
        let ghost k0 = spec_pair(self.key);
        let len: usize = dest.len();
        let mut i: usize = 0;
        while i < len
            invariant
                dest@.len() == len,
                i <= len,
                i % 8 == 0 || i == len,
                spec_pair(self.ctr) == spec_ctr_inc_n(c0, ((i + 7) / 8) as nat),
                self.key == old(self).key,
                k0 == spec_pair(self.key),
                forall|j: int|
                    0 <= j < i ==> dest@[j] == vstd::bytes::spec_u64_to_le_bytes(
                        spec_threefry_block(spec_ctr_inc_n(c0, (j / 8) as nat), k0).0,
                    )[j % 8],
            decreases len - i,
        {
            let w: u64 = self.next_u64();
            assert(spec_pair(self.ctr) == spec_ctr_inc_n(c0, (i / 8 + 1) as nat));
            let bytes: Vec<u8> = vstd::bytes::u64_to_le_bytes(w);
            let mut j: usize = 0;
            while j < 8 && j < len - i
                invariant
                    i < len,
                    dest@.len() == len,
                    j <= 8,
                    i + j <= len,
                    i % 8 == 0,
                    bytes@.len() == 8,
                    bytes@ == vstd::bytes::spec_u64_to_le_bytes(w),
                    forall|jj: int|
                        0 <= jj < i ==> dest@[jj] == vstd::bytes::spec_u64_to_le_bytes(
                            spec_threefry_block(spec_ctr_inc_n(c0, (jj / 8) as nat), k0).0,
                        )[jj % 8],
                    forall|jj: int| i <= jj < i + j ==> dest@[jj] == bytes@[jj - i],
                decreases 8 - j,
            {
                dest[i + j] = bytes[j];
                j = j + 1;
            }
            assert forall|jj: int| i <= jj < i + j implies dest@[jj]
                == vstd::bytes::spec_u64_to_le_bytes(
                spec_threefry_block(spec_ctr_inc_n(c0, (jj / 8) as nat), k0).0,
            )[jj % 8] by {
                assert(jj / 8 == i / 8 && jj % 8 == jj - i);
            }
            if len - i < 8 {
                i = len;
            } else {
                i = i + 8;
            }
        }
    }
}

} // verus!
