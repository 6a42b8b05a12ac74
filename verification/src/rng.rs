//! Streaming adapters for the Philox variants: each owns a counter, a
//! key and a one-block buffer, and serves the buffered block word by
//! word, refilling from the mixing kernel when the buffer runs out.
//!
//! Between blocks the adapters advance the counter over its low two
//! words (word 0 goes up by one, with carry into word 1).  Driving a
//! four-word counter across all four words stays with the caller, who
//! can reach the block functions directly.

use vstd::prelude::*;

use crate::philox::{
    philox_2x32, philox_2x64, philox_4x32, philox_4x64, spec_pair32, spec_pair64,
    spec_philox_2x32, spec_philox_2x64, spec_philox_4x32, spec_philox_4x64, spec_quad32,
    spec_quad64, Array1x32, Array1x64, Array2x32, Array2x64, Array4x32, Array4x64,
};
use crate::threefry::{
    lemma_ctr_inc_val, lemma_ctr_pair_mod, lemma_ctr_pair_val, spec_ctr_inc, spec_ctr_pair,
    spec_ctr_val,
};

verus! {

/// Increment of a two-word 32-bit counter: word 0 goes up by one, with
/// carry into word 1 exactly when word 0 wraps from all-ones to zero.
pub open spec fn spec_ctr_inc32(c: (u32, u32)) -> (u32, u32) {
    (c.0.wrapping_add(1), if c.0 == u32::MAX {
        c.1.wrapping_add(1)
    } else {
        c.1
    })
}

/// The value of a two-word 32-bit counter read as one little-endian
/// integer.
pub open spec fn spec_ctr_val32(c: (u32, u32)) -> nat {
    c.0 as nat + c.1 as nat * 0x100000000
}

/// The 32-bit counter pair whose little-endian value is `n` modulo
/// 2^64.
pub open spec fn spec_ctr_pair32(n: nat) -> (u32, u32) {
    ((n % 0x100000000) as u32, ((n / 0x100000000) % 0x100000000) as u32)
}

/// Incrementing a 32-bit counter pair adds one to its value, modulo
/// 2^64.
pub proof fn lemma_ctr_inc_val32(c: (u32, u32))
    ensures
        spec_ctr_val32(spec_ctr_inc32(c)) == (spec_ctr_val32(c) + 1) % 0x10000000000000000nat,
{
    let v = spec_ctr_val32(c);
    assert(v < 0x10000000000000000nat) by (nonlinear_arith)
        requires
            v == c.0 as nat + c.1 as nat * 0x100000000,
            c.0 <= 0xFFFFFFFF,
            c.1 <= 0xFFFFFFFF,
    ;
    if c.0 == u32::MAX && c.1 == u32::MAX {
        assert(v + 1 == 0x10000000000000000nat);
    } else {
        assert((v + 1) % 0x10000000000000000nat == v + 1);
    }
}

/// A 32-bit counter pair carries exactly its value.
pub proof fn lemma_ctr_pair_val32(c: (u32, u32))
    ensures
        spec_ctr_pair32(spec_ctr_val32(c)) == c,
{
    let v = spec_ctr_val32(c);
    assert(v % 0x100000000 == c.0 && v / 0x100000000 == c.1 as nat) by (nonlinear_arith)
        requires
            v == c.0 as nat + c.1 as nat * 0x100000000,
            c.0 <= 0xFFFFFFFF,
            c.1 <= 0xFFFFFFFF,
    ;
}

/// Reducing a value modulo 2^64 does not change the 32-bit counter
/// pair it stands for.
pub proof fn lemma_ctr_pair_mod32(n: nat)
    ensures
        spec_ctr_pair32(n % 0x10000000000000000nat) == spec_ctr_pair32(n),
{
    let w = 0x100000000nat;
    let m = 0x10000000000000000nat;
    let k = n % m;
    vstd::arithmetic::div_mod::lemma_breakdown(n as int, w as int, w as int);
    assert(m == w * w) by (nonlinear_arith)
        requires
            w == 0x100000000nat,
            m == 0x10000000000000000nat,
    ;
    assert(k == w * ((n / w) % w) + n % w);
    vstd::arithmetic::div_mod::lemma_fundamental_div_mod_converse(
        k as int,
        w as int,
        ((n / w) % w) as int,
        (n % w) as int,
    );
    assert(k % w == n % w);
    assert(k / w == (n / w) % w);
    vstd::arithmetic::div_mod::lemma_mod_twice(((n / w) % w) as int, w as int);
}

/// Abstract state of a two-word Philox adapter with 32-bit words.
pub ghost struct Philox2x32Stream {
    pub ctr: (u32, u32),
    pub key: u32,
    pub buf: (u32, u32),
    pub index: nat,
}

/// The buffered word of a two-word 32-bit block at cursor position `i`.
pub open spec fn spec_word2x32(buf: (u32, u32), i: nat) -> u32 {
    if i == 0 {
        buf.0
    } else {
        buf.1
    }
}

/// One word request against a Philox-2x32 adapter.
pub open spec fn spec_p2x32_next(s: Philox2x32Stream) -> (Philox2x32Stream, u32) {
    if s.index < 2 {
        (
            Philox2x32Stream { ctr: s.ctr, key: s.key, buf: s.buf, index: s.index + 1 },
            spec_word2x32(s.buf, s.index),
        )
    } else {
        let b = spec_philox_2x32(s.ctr, s.key);
        (Philox2x32Stream { ctr: spec_ctr_inc32(s.ctr), key: s.key, buf: b, index: 1 }, b.0)
    }
}

/// A freshly seeded Philox-2x32 adapter.
pub open spec fn spec_p2x32_fresh(key: u32) -> Philox2x32Stream {
    Philox2x32Stream { ctr: (0u32, 0u32), key: key, buf: (0u32, 0u32), index: 2 }
}

/// The word the `n`-th request against a Philox-2x32 adapter returns.
pub open spec fn spec_p2x32_pull(s: Philox2x32Stream, n: nat) -> u32
    decreases n,
{
    if n == 0 {
        spec_p2x32_next(s).1
    } else {
        spec_p2x32_pull(spec_p2x32_next(s).0, (n - 1) as nat)
    }
}

/// The `n`-th word of the flattened Philox-2x32 block sequence in
/// increasing counter order.
pub open spec fn spec_p2x32_stream_word(key: u32, n: nat) -> u32 {
    let b = spec_philox_2x32(spec_ctr_pair32(n / 2), key);
    if n % 2 == 0 {
        b.0
    } else {
        b.1
    }
}

spec fn spec_p2x32_models(s: Philox2x32Stream, key: u32, p: nat) -> bool {
    let m = 0x10000000000000000nat;
    &&& s.key == key
    &&& if p % 2 == 0 {
        &&& s.index == 2
        &&& spec_ctr_val32(s.ctr) == (p / 2) % m
    } else {
        &&& s.index == 1
        &&& spec_ctr_val32(s.ctr) == ((p + 1) / 2) % m
        &&& s.buf == spec_philox_2x32(spec_ctr_pair32(p / 2), key)
    }
}

#[verifier::rlimit(60)]
proof fn lemma_p2x32_models_step(s: Philox2x32Stream, key: u32, p: nat)
    requires
        spec_p2x32_models(s, key, p),
    ensures
        spec_p2x32_next(s).1 == spec_p2x32_stream_word(key, p),
        spec_p2x32_models(spec_p2x32_next(s).0, key, p + 1),
{
    let m = 0x10000000000000000nat;
    if p % 2 == 0 {
        lemma_ctr_pair_val32(s.ctr);
        lemma_ctr_pair_mod32(p / 2);
        assert(s.ctr == spec_ctr_pair32(p / 2));
        lemma_ctr_inc_val32(s.ctr);
        vstd::arithmetic::div_mod::lemma_add_mod_noop((p / 2) as int, 1int, m as int);
        vstd::arithmetic::div_mod::lemma_small_mod(1nat, m);
        assert(spec_ctr_val32(spec_ctr_inc32(s.ctr)) == (p / 2 + 1) % m);
        assert((p + 2) / 2 == p / 2 + 1);
    } else {
        assert((p + 1) / 2 == p / 2 + 1);
    }
}

#[verifier::rlimit(60)]
proof fn lemma_p2x32_pull_models(s: Philox2x32Stream, key: u32, p: nat, n: nat)
    requires
        spec_p2x32_models(s, key, p),
    ensures
        spec_p2x32_pull(s, n) == spec_p2x32_stream_word(key, p + n),
    decreases n,
{
    lemma_p2x32_models_step(s, key, p);
    if n > 0 {
        lemma_p2x32_pull_models(spec_p2x32_next(s).0, key, p + 1, (n - 1) as nat);
    }
}

/// Streaming equivalence for Philox-2x32: from a freshly seeded
/// adapter, the `n`-th single-word request returns word `n` of the
/// flattened block sequence in increasing counter order.
pub proof fn lemma_p2x32_streaming_equivalence(key: u32, n: nat)
    ensures
        spec_p2x32_pull(spec_p2x32_fresh(key), n) == spec_p2x32_stream_word(key, n),
{
    lemma_p2x32_pull_models(spec_p2x32_fresh(key), key, 0, n);
}

/// The streaming adapter of the Philox-2x32-10 generator.
#[derive(Clone, Copy, Debug)]
pub struct Philox2x32Rng {
    pub ctr: Array2x32,
    pub key: Array1x32,
    pub buf: Array2x32,
    pub index: usize,
}

impl View for Philox2x32Rng {
    type V = Philox2x32Stream;

    open spec fn view(&self) -> Philox2x32Stream {
        Philox2x32Stream {
            ctr: spec_pair32(self.ctr),
            key: self.key[0],
            buf: spec_pair32(self.buf),
            index: self.index as nat,
        }
    }
}

impl Philox2x32Rng {
    /// The cursor never lies past the buffer's end.
    pub open spec fn wf(&self) -> bool {
        self.index <= 2
    }

    /// Seeds an adapter: the 4 seed bytes are read as one little-endian
    /// key word, the counter starts at zero, the buffer exhausted.
    pub fn from_seed(seed: [u8; 4]) -> (s: Self)
        ensures
            s@ == spec_p2x32_fresh(vstd::bytes::spec_u32_from_le_bytes(seed@)),
            s.wf(),
    {
        let k0: u32 = vstd::bytes::u32_from_le_bytes(seed.as_slice());
        Philox2x32Rng { ctr: [0, 0], key: [k0], buf: [0, 0], index: 2 }
    }

    /// Serves the next 32-bit word: from the buffer while it lasts,
    /// otherwise from a fresh block, which advances the counter.
    pub fn next_u32(&mut self) -> (r: u32)
        requires
            old(self).wf(),
        ensures
            final(self).wf(),
            (final(self)@, r) == spec_p2x32_next(old(self)@),
    {
        if self.index >= 2 {
            self.buf = philox_2x32(self.ctr, self.key);
            self.ctr[0] = self.ctr[0].wrapping_add(1);
            if self.ctr[0] == 0 {
                self.ctr[1] = self.ctr[1].wrapping_add(1);
            }
            self.index = 0;
        }
        let r: u32 = self.buf[self.index];
        self.index = self.index + 1;
        r
    }
}

/// Abstract state of a two-word Philox adapter with 64-bit words.
pub ghost struct Philox2x64Stream {
    pub ctr: (u64, u64),
    pub key: u64,
    pub buf: (u64, u64),
    pub index: nat,
}

/// The buffered word of a two-word 64-bit block at cursor position `i`.
pub open spec fn spec_word2x64(buf: (u64, u64), i: nat) -> u64 {
    if i == 0 {
        buf.0
    } else {
        buf.1
    }
}

/// One word request against a Philox-2x64 adapter.
pub open spec fn spec_p2x64_next(s: Philox2x64Stream) -> (Philox2x64Stream, u64) {
    if s.index < 2 {
        (
            Philox2x64Stream { ctr: s.ctr, key: s.key, buf: s.buf, index: s.index + 1 },
            spec_word2x64(s.buf, s.index),
        )
    } else {
        let b = spec_philox_2x64(s.ctr, s.key);
        (Philox2x64Stream { ctr: spec_ctr_inc(s.ctr), key: s.key, buf: b, index: 1 }, b.0)
    }
}

/// A freshly seeded Philox-2x64 adapter.
pub open spec fn spec_p2x64_fresh(key: u64) -> Philox2x64Stream {
    Philox2x64Stream { ctr: (0u64, 0u64), key: key, buf: (0u64, 0u64), index: 2 }
}

/// The word the `n`-th request against a Philox-2x64 adapter returns.
pub open spec fn spec_p2x64_pull(s: Philox2x64Stream, n: nat) -> u64
    decreases n,
{
    if n == 0 {
        spec_p2x64_next(s).1
    } else {
        spec_p2x64_pull(spec_p2x64_next(s).0, (n - 1) as nat)
    }
}

/// The `n`-th word of the flattened Philox-2x64 block sequence in
/// increasing counter order.
pub open spec fn spec_p2x64_stream_word(key: u64, n: nat) -> u64 {
    let b = spec_philox_2x64(spec_ctr_pair(n / 2), key);
    if n % 2 == 0 {
        b.0
    } else {
        b.1
    }
}

spec fn spec_p2x64_models(s: Philox2x64Stream, key: u64, p: nat) -> bool {
    let m = 0x100000000000000000000000000000000nat;
    &&& s.key == key
    &&& if p % 2 == 0 {
        &&& s.index == 2
        &&& spec_ctr_val(s.ctr) == (p / 2) % m
    } else {
        &&& s.index == 1
        &&& spec_ctr_val(s.ctr) == ((p + 1) / 2) % m
        &&& s.buf == spec_philox_2x64(spec_ctr_pair(p / 2), key)
    }
}

#[verifier::rlimit(60)]
proof fn lemma_p2x64_models_step(s: Philox2x64Stream, key: u64, p: nat)
    requires
        spec_p2x64_models(s, key, p),
    ensures
        spec_p2x64_next(s).1 == spec_p2x64_stream_word(key, p),
        spec_p2x64_models(spec_p2x64_next(s).0, key, p + 1),
{
    let m = 0x100000000000000000000000000000000nat;
    if p % 2 == 0 {
        lemma_ctr_pair_val(s.ctr);
        lemma_ctr_pair_mod(p / 2);
        assert(s.ctr == spec_ctr_pair(p / 2));
        lemma_ctr_inc_val(s.ctr);
        vstd::arithmetic::div_mod::lemma_add_mod_noop((p / 2) as int, 1int, m as int);
        vstd::arithmetic::div_mod::lemma_small_mod(1nat, m);
        assert(spec_ctr_val(spec_ctr_inc(s.ctr)) == (p / 2 + 1) % m);
        assert((p + 2) / 2 == p / 2 + 1);
    } else {
        assert((p + 1) / 2 == p / 2 + 1);
    }
}

#[verifier::rlimit(60)]
proof fn lemma_p2x64_pull_models(s: Philox2x64Stream, key: u64, p: nat, n: nat)
    requires
        spec_p2x64_models(s, key, p),
    ensures
        spec_p2x64_pull(s, n) == spec_p2x64_stream_word(key, p + n),
    decreases n,
{
    lemma_p2x64_models_step(s, key, p);
    if n > 0 {
        lemma_p2x64_pull_models(spec_p2x64_next(s).0, key, p + 1, (n - 1) as nat);
    }
}

/// Streaming equivalence for Philox-2x64: from a freshly seeded
/// adapter, the `n`-th single-word request returns word `n` of the
/// flattened block sequence in increasing counter order.
pub proof fn lemma_p2x64_streaming_equivalence(key: u64, n: nat)
    ensures
        spec_p2x64_pull(spec_p2x64_fresh(key), n) == spec_p2x64_stream_word(key, n),
{
    lemma_p2x64_pull_models(spec_p2x64_fresh(key), key, 0, n);
}

/// The streaming adapter of the Philox-2x64-10 generator.
#[derive(Clone, Copy, Debug)]
pub struct Philox2x64Rng {
    pub ctr: Array2x64,
    pub key: Array1x64,
    pub buf: Array2x64,
    pub index: usize,
}

impl View for Philox2x64Rng {
    type V = Philox2x64Stream;

    open spec fn view(&self) -> Philox2x64Stream {
        Philox2x64Stream {
            ctr: spec_pair64(self.ctr),
            key: self.key[0],
            buf: spec_pair64(self.buf),
            index: self.index as nat,
        }
    }
}

impl Philox2x64Rng {
    /// The cursor never lies past the buffer's end.
    pub open spec fn wf(&self) -> bool {
        self.index <= 2
    }

    /// Seeds an adapter: the 8 seed bytes are read as one little-endian
    /// key word, the counter starts at zero, the buffer exhausted.
    pub fn from_seed(seed: [u8; 8]) -> (s: Self)
        ensures
            s@ == spec_p2x64_fresh(vstd::bytes::spec_u64_from_le_bytes(seed@)),
            s.wf(),
    {
        let k0: u64 = vstd::bytes::u64_from_le_bytes(seed.as_slice());
        Philox2x64Rng { ctr: [0, 0], key: [k0], buf: [0, 0], index: 2 }
    }

    /// Serves the next 64-bit word: from the buffer while it lasts,
    /// otherwise from a fresh block, which advances the counter.
    pub fn next_u64(&mut self) -> (r: u64)
        requires
            old(self).wf(),
        ensures
            final(self).wf(),
            (final(self)@, r) == spec_p2x64_next(old(self)@),
    {
        if self.index >= 2 {
            self.buf = philox_2x64(self.ctr, self.key);
            self.ctr[0] = self.ctr[0].wrapping_add(1);
            if self.ctr[0] == 0 {
                self.ctr[1] = self.ctr[1].wrapping_add(1);
            }
            self.index = 0;
        }
        let r: u64 = self.buf[self.index];
        self.index = self.index + 1;
        r
    }
}

/// Abstract state of a four-word Philox adapter with 32-bit words.
pub ghost struct Philox4x32Stream {
    pub ctr: (u32, u32, u32, u32),
    pub key: (u32, u32),
    pub buf: (u32, u32, u32, u32),
    pub index: nat,
}

/// The buffered word of a four-word 32-bit block at cursor position
/// `i`.
pub open spec fn spec_word4x32(buf: (u32, u32, u32, u32), i: nat) -> u32 {
    if i == 0 {
        buf.0
    } else if i == 1 {
        buf.1
    } else if i == 2 {
        buf.2
    } else {
        buf.3
    }
}

/// One word request against a Philox-4x32 adapter: a refill advances
/// the counter over its low two words.
pub open spec fn spec_p4x32_next(s: Philox4x32Stream) -> (Philox4x32Stream, u32) {
    if s.index < 4 {
        (
            Philox4x32Stream { ctr: s.ctr, key: s.key, buf: s.buf, index: s.index + 1 },
            spec_word4x32(s.buf, s.index),
        )
    } else {
        let b = spec_philox_4x32(s.ctr, s.key);
        let lo = spec_ctr_inc32((s.ctr.0, s.ctr.1));
        (
            Philox4x32Stream {
                ctr: (lo.0, lo.1, s.ctr.2, s.ctr.3),
                key: s.key,
                buf: b,
                index: 1,
            },
            b.0,
        )
    }
}

/// A freshly seeded Philox-4x32 adapter.
pub open spec fn spec_p4x32_fresh(key: (u32, u32)) -> Philox4x32Stream {
    Philox4x32Stream {
        ctr: (0u32, 0u32, 0u32, 0u32),
        key: key,
        buf: (0u32, 0u32, 0u32, 0u32),
        index: 4,
    }
}

/// The word the `n`-th request against a Philox-4x32 adapter returns.
pub open spec fn spec_p4x32_pull(s: Philox4x32Stream, n: nat) -> u32
    decreases n,
{
    if n == 0 {
        spec_p4x32_next(s).1
    } else {
        spec_p4x32_pull(spec_p4x32_next(s).0, (n - 1) as nat)
    }
}

/// The `n`-th word of the flattened Philox-4x32 block sequence in
/// increasing counter order, the high counter words staying zero.
pub open spec fn spec_p4x32_stream_word(key: (u32, u32), n: nat) -> u32 {
    let c = spec_ctr_pair32(n / 4);
    spec_word4x32(spec_philox_4x32((c.0, c.1, 0u32, 0u32), key), n % 4)
}

spec fn spec_p4x32_models(s: Philox4x32Stream, key: (u32, u32), p: nat) -> bool {
    let m = 0x10000000000000000nat;
    &&& s.key == key
    &&& s.ctr.2 == 0u32
    &&& s.ctr.3 == 0u32
    &&& if p % 4 == 0 {
        &&& s.index == 4
        &&& spec_ctr_val32((s.ctr.0, s.ctr.1)) == (p / 4) % m
    } else {
        &&& s.index == p % 4
        &&& spec_ctr_val32((s.ctr.0, s.ctr.1)) == (p / 4 + 1) % m
        &&& ({
            let c = spec_ctr_pair32(p / 4);
            s.buf == spec_philox_4x32((c.0, c.1, 0u32, 0u32), key)
        })
    }
}

#[verifier::rlimit(100)]
#[verifier::spinoff_prover]
proof fn lemma_p4x32_models_step(s: Philox4x32Stream, key: (u32, u32), p: nat)
    requires
        spec_p4x32_models(s, key, p),
    ensures
        spec_p4x32_next(s).1 == spec_p4x32_stream_word(key, p),
        spec_p4x32_models(spec_p4x32_next(s).0, key, p + 1),
{
    let m = 0x10000000000000000nat;
    let lo = (s.ctr.0, s.ctr.1);
    if p % 4 == 0 {
        lemma_ctr_pair_val32(lo);
        lemma_ctr_pair_mod32(p / 4);
        assert(lo == spec_ctr_pair32(p / 4));
        lemma_ctr_inc_val32(lo);
        vstd::arithmetic::div_mod::lemma_add_mod_noop((p / 4) as int, 1int, m as int);
        vstd::arithmetic::div_mod::lemma_small_mod(1nat, m);
        assert(spec_ctr_val32(spec_ctr_inc32(lo)) == (p / 4 + 1) % m);
        assert((p + 1) % 4 == 1 && (p + 1) / 4 == p / 4);
    } else {
        assert((p + 1) % 4 == (if p % 4 == 3 { 0nat } else { (p % 4 + 1) as nat }));
        if p % 4 == 3 {
            assert((p + 1) / 4 == p / 4 + 1);
        } else {
            assert((p + 1) / 4 == p / 4);
        }
    }
}

#[verifier::rlimit(60)]
proof fn lemma_p4x32_pull_models(s: Philox4x32Stream, key: (u32, u32), p: nat, n: nat)
    requires
        spec_p4x32_models(s, key, p),
    ensures
        spec_p4x32_pull(s, n) == spec_p4x32_stream_word(key, p + n),
    decreases n,
{
    lemma_p4x32_models_step(s, key, p);
    if n > 0 {
        lemma_p4x32_pull_models(spec_p4x32_next(s).0, key, p + 1, (n - 1) as nat);
    }
}

/// Streaming equivalence for Philox-4x32: from a freshly seeded
/// adapter, the `n`-th single-word request returns word `n` of the
/// flattened block sequence in increasing counter order.
pub proof fn lemma_p4x32_streaming_equivalence(key: (u32, u32), n: nat)
    ensures
        spec_p4x32_pull(spec_p4x32_fresh(key), n) == spec_p4x32_stream_word(key, n),
{
    lemma_p4x32_pull_models(spec_p4x32_fresh(key), key, 0, n);
}

/// The streaming adapter of the Philox-4x32-10 generator.
#[derive(Clone, Copy, Debug)]
pub struct Philox4x32Rng {
    pub ctr: Array4x32,
    pub key: Array2x32,
    pub buf: Array4x32,
    pub index: usize,
}

impl View for Philox4x32Rng {
    type V = Philox4x32Stream;

    open spec fn view(&self) -> Philox4x32Stream {
        Philox4x32Stream {
            ctr: spec_quad32(self.ctr),
            key: spec_pair32(self.key),
            buf: spec_quad32(self.buf),
            index: self.index as nat,
        }
    }
}

impl Philox4x32Rng {
    /// The cursor never lies past the buffer's end.
    pub open spec fn wf(&self) -> bool {
        self.index <= 4
    }

    /// Seeds an adapter: the 8 seed bytes are read as two little-endian
    /// key words, the counter starts at zero, the buffer exhausted.
    pub fn from_seed(seed: [u8; 8]) -> (s: Self)
        ensures
            s@ == spec_p4x32_fresh(
                (
                    vstd::bytes::spec_u32_from_le_bytes(seed@.subrange(0, 4)),
                    vstd::bytes::spec_u32_from_le_bytes(seed@.subrange(4, 8)),
                ),
            ),
            s.wf(),
    {
        let k0: u32 = vstd::bytes::u32_from_le_bytes(
            vstd::slice::slice_subrange(seed.as_slice(), 0, 4),
        );
        let k1: u32 = vstd::bytes::u32_from_le_bytes(
            vstd::slice::slice_subrange(seed.as_slice(), 4, 8),
        );
        Philox4x32Rng { ctr: [0, 0, 0, 0], key: [k0, k1], buf: [0, 0, 0, 0], index: 4 }
    }

    /// Serves the next 32-bit word: from the buffer while it lasts,
    /// otherwise from a fresh block, which advances the counter over
    /// its low two words.
    pub fn next_u32(&mut self) -> (r: u32)
        requires
            old(self).wf(),
        ensures
            final(self).wf(),
            (final(self)@, r) == spec_p4x32_next(old(self)@),
    {
        if self.index >= 4 {
            self.buf = philox_4x32(self.ctr, self.key);
            self.ctr[0] = self.ctr[0].wrapping_add(1);
            if self.ctr[0] == 0 {
                self.ctr[1] = self.ctr[1].wrapping_add(1);
            }
            self.index = 0;
        }
        let r: u32 = self.buf[self.index];
        self.index = self.index + 1;
        r
    }
}

/// Abstract state of a four-word Philox adapter with 64-bit words.
pub ghost struct Philox4x64Stream {
    pub ctr: (u64, u64, u64, u64),
    pub key: (u64, u64),
    pub buf: (u64, u64, u64, u64),
    pub index: nat,
}

/// The buffered word of a four-word 64-bit block at cursor position
/// `i`.
pub open spec fn spec_word4x64(buf: (u64, u64, u64, u64), i: nat) -> u64 {
    if i == 0 {
        buf.0
    } else if i == 1 {
        buf.1
    } else if i == 2 {
        buf.2
    } else {
        buf.3
    }
}

/// One word request against a Philox-4x64 adapter: a refill advances
/// the counter over its low two words.
pub open spec fn spec_p4x64_next(s: Philox4x64Stream) -> (Philox4x64Stream, u64) {
    if s.index < 4 {
        (
            Philox4x64Stream { ctr: s.ctr, key: s.key, buf: s.buf, index: s.index + 1 },
            spec_word4x64(s.buf, s.index),
        )
    } else {
        let b = spec_philox_4x64(s.ctr, s.key);
        let lo = spec_ctr_inc((s.ctr.0, s.ctr.1));
        (
            Philox4x64Stream {
                ctr: (lo.0, lo.1, s.ctr.2, s.ctr.3),
                key: s.key,
                buf: b,
                index: 1,
            },
            b.0,
        )
    }
}

/// A freshly seeded Philox-4x64 adapter.
pub open spec fn spec_p4x64_fresh(key: (u64, u64)) -> Philox4x64Stream {
    Philox4x64Stream {
        ctr: (0u64, 0u64, 0u64, 0u64),
        key: key,
        buf: (0u64, 0u64, 0u64, 0u64),
        index: 4,
    }
}

/// The word the `n`-th request against a Philox-4x64 adapter returns.
pub open spec fn spec_p4x64_pull(s: Philox4x64Stream, n: nat) -> u64
    decreases n,
{
    if n == 0 {
        spec_p4x64_next(s).1
    } else {
        spec_p4x64_pull(spec_p4x64_next(s).0, (n - 1) as nat)
    }
}

/// The `n`-th word of the flattened Philox-4x64 block sequence in
/// increasing counter order, the high counter words staying zero.
pub open spec fn spec_p4x64_stream_word(key: (u64, u64), n: nat) -> u64 {
    let c = spec_ctr_pair(n / 4);
    spec_word4x64(spec_philox_4x64((c.0, c.1, 0u64, 0u64), key), n % 4)
}

spec fn spec_p4x64_models(s: Philox4x64Stream, key: (u64, u64), p: nat) -> bool {
    let m = 0x100000000000000000000000000000000nat;
    &&& s.key == key
    &&& s.ctr.2 == 0u64
    &&& s.ctr.3 == 0u64
    &&& if p % 4 == 0 {
        &&& s.index == 4
        &&& spec_ctr_val((s.ctr.0, s.ctr.1)) == (p / 4) % m
    } else {
        &&& s.index == p % 4
        &&& spec_ctr_val((s.ctr.0, s.ctr.1)) == (p / 4 + 1) % m
        &&& ({
            let c = spec_ctr_pair(p / 4);
            s.buf == spec_philox_4x64((c.0, c.1, 0u64, 0u64), key)
        })
    }
}

#[verifier::rlimit(100)]
#[verifier::spinoff_prover]
proof fn lemma_p4x64_models_step(s: Philox4x64Stream, key: (u64, u64), p: nat)
    requires
        spec_p4x64_models(s, key, p),
    ensures
        spec_p4x64_next(s).1 == spec_p4x64_stream_word(key, p),
        spec_p4x64_models(spec_p4x64_next(s).0, key, p + 1),
{
    let m = 0x100000000000000000000000000000000nat;
    let lo = (s.ctr.0, s.ctr.1);
    if p % 4 == 0 {
        lemma_ctr_pair_val(lo);
        lemma_ctr_pair_mod(p / 4);
        assert(lo == spec_ctr_pair(p / 4));
        lemma_ctr_inc_val(lo);
        vstd::arithmetic::div_mod::lemma_add_mod_noop((p / 4) as int, 1int, m as int);
        vstd::arithmetic::div_mod::lemma_small_mod(1nat, m);
        assert(spec_ctr_val(spec_ctr_inc(lo)) == (p / 4 + 1) % m);
        assert((p + 1) % 4 == 1 && (p + 1) / 4 == p / 4);
    } else {
        assert((p + 1) % 4 == (if p % 4 == 3 { 0nat } else { (p % 4 + 1) as nat }));
        if p % 4 == 3 {
            assert((p + 1) / 4 == p / 4 + 1);
        } else {
            assert((p + 1) / 4 == p / 4);
        }
    }
}

#[verifier::rlimit(60)]
proof fn lemma_p4x64_pull_models(s: Philox4x64Stream, key: (u64, u64), p: nat, n: nat)
    requires
        spec_p4x64_models(s, key, p),
    ensures
        spec_p4x64_pull(s, n) == spec_p4x64_stream_word(key, p + n),
    decreases n,
{
    lemma_p4x64_models_step(s, key, p);
    if n > 0 {
        lemma_p4x64_pull_models(spec_p4x64_next(s).0, key, p + 1, (n - 1) as nat);
    }
}

/// Streaming equivalence for Philox-4x64: from a freshly seeded
/// adapter, the `n`-th single-word request returns word `n` of the
/// flattened block sequence in increasing counter order.
pub proof fn lemma_p4x64_streaming_equivalence(key: (u64, u64), n: nat)
    ensures
        spec_p4x64_pull(spec_p4x64_fresh(key), n) == spec_p4x64_stream_word(key, n),
{
    lemma_p4x64_pull_models(spec_p4x64_fresh(key), key, 0, n);
}

/// The streaming adapter of the Philox-4x64-10 generator.
#[derive(Clone, Copy, Debug)]
pub struct Philox4x64Rng {
    pub ctr: Array4x64,
    pub key: Array2x64,
    pub buf: Array4x64,
    pub index: usize,
}

impl View for Philox4x64Rng {
    type V = Philox4x64Stream;

    open spec fn view(&self) -> Philox4x64Stream {
        Philox4x64Stream {
            ctr: spec_quad64(self.ctr),
            key: spec_pair64(self.key),
            buf: spec_quad64(self.buf),
            index: self.index as nat,
        }
    }
}

impl Philox4x64Rng {
    /// The cursor never lies past the buffer's end.
    pub open spec fn wf(&self) -> bool {
        self.index <= 4
    }

    /// Seeds an adapter: the 16 seed bytes are read as two
    /// little-endian key words, the counter starts at zero, the buffer
    /// exhausted.
    pub fn from_seed(seed: [u8; 16]) -> (s: Self)
        ensures
            s@ == spec_p4x64_fresh(
                (
                    vstd::bytes::spec_u64_from_le_bytes(seed@.subrange(0, 8)),
                    vstd::bytes::spec_u64_from_le_bytes(seed@.subrange(8, 16)),
                ),
            ),
            s.wf(),
    {
        let k0: u64 = vstd::bytes::u64_from_le_bytes(
            vstd::slice::slice_subrange(seed.as_slice(), 0, 8),
        );
        let k1: u64 = vstd::bytes::u64_from_le_bytes(
            vstd::slice::slice_subrange(seed.as_slice(), 8, 16),
        );
        Philox4x64Rng { ctr: [0, 0, 0, 0], key: [k0, k1], buf: [0, 0, 0, 0], index: 4 }
    }

    /// Serves the next 64-bit word: from the buffer while it lasts,
    /// otherwise from a fresh block, which advances the counter over
    /// its low two words.
    pub fn next_u64(&mut self) -> (r: u64)
        requires
            old(self).wf(),
        ensures
            final(self).wf(),
            (final(self)@, r) == spec_p4x64_next(old(self)@),
    {
        if self.index >= 4 {
            self.buf = philox_4x64(self.ctr, self.key);
            self.ctr[0] = self.ctr[0].wrapping_add(1);
            if self.ctr[0] == 0 {
                self.ctr[1] = self.ctr[1].wrapping_add(1);
            }
            self.index = 0;
        }
        let r: u64 = self.buf[self.index];
        self.index = self.index + 1;
        r
    }
}

} // verus!
