//! The Threefry-2x64 mixing kernel (20 rounds), its block core, and the
//! streaming adapter that serves the blocks as an endless word sequence.

use vstd::prelude::*;

verus! {

/// One pair of 64-bit words: a counter, a key, or an output block.
pub type Array2x64 = [u64; 2];

/// The Skein parity constant (high half 0x1BD11BDA, low half
/// 0xA9FC1A22), used to derive the third key-schedule word.
pub const SKEIN_PARITY: u64 = 0x1BD11BDAA9FC1A22;

/// Left rotation of a 64-bit word by `n` bits, `0 < n < 64`.
pub open spec fn spec_rotl64(x: u64, n: u32) -> u64
    recommends
        0 < n < 64,
{
    (x << n) | (x >> ((64 - n) as u32))
}

fn rotl64(x: u64, n: u32) -> (r: u64)
    requires
        0 < n < 64,
    ensures
        r == spec_rotl64(x, n),
{
    (x << n) | (x >> (64 - n))
}

/// One Threefry mixing round with rotation constant `r`:
/// add the words, rotate the second, fold the first back in.
pub open spec fn spec_mix(x: (u64, u64), r: u32) -> (u64, u64) {
    let x0 = x.0.wrapping_add(x.1);
    (x0, spec_rotl64(x.1, r) ^ x0)
}

/// A key injection: add two key-schedule words, plus the injection
/// index `k` on the second word.
pub open spec fn spec_inject(x: (u64, u64), ka: u64, kb: u64, k: u64) -> (u64, u64) {
    (x.0.wrapping_add(ka), x.1.wrapping_add(kb).wrapping_add(k))
}

/// Four consecutive mixing rounds with rotations `r0, r1, r2, r3`.
pub open spec fn spec_four_rounds(x: (u64, u64), r0: u32, r1: u32, r2: u32, r3: u32) -> (
    u64,
    u64,
) {
    spec_mix(spec_mix(spec_mix(spec_mix(x, r0), r1), r2), r3)
}

/// The Threefry-2x64-20 block function: five key injections interleaved
/// with four-round mixing groups whose rotation constants alternate
/// between (16, 42, 12, 31) and (16, 32, 24, 21).  The key schedule is
/// `(key.0, key.1, SKEIN_PARITY ^ key.0 ^ key.1)`, walked cyclically.
pub open spec fn spec_threefry_block(ctr: (u64, u64), key: (u64, u64)) -> (u64, u64) {
    let ks0 = key.0;
    let ks1 = key.1;
    let ks2 = SKEIN_PARITY ^ key.0 ^ key.1;
    let x = spec_inject(ctr, ks0, ks1, 0);
    let x = spec_four_rounds(x, 16, 42, 12, 31);
    let x = spec_inject(x, ks1, ks2, 1);
    let x = spec_four_rounds(x, 16, 32, 24, 21);
    let x = spec_inject(x, ks2, ks0, 2);
    let x = spec_four_rounds(x, 16, 42, 12, 31);
    let x = spec_inject(x, ks0, ks1, 3);
    let x = spec_four_rounds(x, 16, 32, 24, 21);
    let x = spec_inject(x, ks1, ks2, 4);
    let x = spec_four_rounds(x, 16, 42, 12, 31);
    spec_inject(x, ks2, ks0, 5)
}

/// The two words of an array, as the pair the spec functions speak of.
pub open spec fn spec_pair(a: Array2x64) -> (u64, u64) {
    (a[0], a[1])
}

fn mix(x: (u64, u64), r: u32) -> (y: (u64, u64))
    requires
        0 < r < 64,
    ensures
        y == spec_mix(x, r),
{
    let x0: u64 = x.0.wrapping_add(x.1);
    (x0, rotl64(x.1, r) ^ x0)
}

fn inject(x: (u64, u64), ka: u64, kb: u64, k: u64) -> (y: (u64, u64))
    ensures
        y == spec_inject(x, ka, kb, k),
{
    (x.0.wrapping_add(ka), x.1.wrapping_add(kb).wrapping_add(k))
}

fn four_rounds(x: (u64, u64), r0: u32, r1: u32, r2: u32, r3: u32) -> (y: (u64, u64))
    requires
        0 < r0 < 64,
        0 < r1 < 64,
        0 < r2 < 64,
        0 < r3 < 64,
    ensures
        y == spec_four_rounds(x, r0, r1, r2, r3),
{
    mix(mix(mix(mix(x, r0), r1), r2), r3)
}

/// The Threefry-2x64-20 mixing kernel: writes into `x` the block that
/// belongs to this counter and key.  Pure and total: the result is a
/// function of `ctr` and `key` alone, so repeated calls on the same
/// inputs yield bit-identical output.
pub fn rand(ctr: Array2x64, key: Array2x64, x: &mut Array2x64)
    ensures
        spec_pair(*final(x)) == spec_threefry_block(spec_pair(ctr), spec_pair(key)),
{
    let ks0: u64 = key[0];
    let ks1: u64 = key[1];
    let ks2: u64 = SKEIN_PARITY ^ key[0] ^ key[1];
    let mut w: (u64, u64) = inject((ctr[0], ctr[1]), ks0, ks1, 0);
    w = four_rounds(w, 16, 42, 12, 31);
    w = inject(w, ks1, ks2, 1);
    w = four_rounds(w, 16, 32, 24, 21);
    w = inject(w, ks2, ks0, 2);
    w = four_rounds(w, 16, 42, 12, 31);
    w = inject(w, ks0, ks1, 3);
    w = four_rounds(w, 16, 32, 24, 21);
    w = inject(w, ks1, ks2, 4);
    w = four_rounds(w, 16, 42, 12, 31);
    w = inject(w, ks2, ks0, 5);
    x[0] = w.0;
    x[1] = w.1;
}

/// The value of a two-word counter read as one little-endian integer.
pub open spec fn spec_ctr_val(c: (u64, u64)) -> nat {
    c.0 as nat + c.1 as nat * 0x10000000000000000
}

/// Increment of a two-word counter: word 0 goes up by one, with carry
/// into word 1 exactly when word 0 wraps from all-ones to zero.
pub open spec fn spec_ctr_inc(c: (u64, u64)) -> (u64, u64) {
    (c.0.wrapping_add(1), if c.0 == u64::MAX {
        c.1.wrapping_add(1)
    } else {
        c.1
    })
}

/// The counter pair whose little-endian value is `n` modulo 2^128.
pub open spec fn spec_ctr_pair(n: nat) -> (u64, u64) {
    ((n % 0x10000000000000000) as u64, ((n / 0x10000000000000000) % 0x10000000000000000) as u64)
}

/// Incrementing a counter pair adds one to its value, modulo 2^128.
pub proof fn lemma_ctr_inc_val(c: (u64, u64))
    ensures
        spec_ctr_val(spec_ctr_inc(c)) == (spec_ctr_val(c) + 1)
            % 0x100000000000000000000000000000000nat,
{
    let v = spec_ctr_val(c);
    assert(v < 0x100000000000000000000000000000000nat) by (nonlinear_arith)
        requires
            v == c.0 as nat + c.1 as nat * 0x10000000000000000,
            c.0 <= 0xFFFFFFFFFFFFFFFF,
            c.1 <= 0xFFFFFFFFFFFFFFFF,
    ;
    if c.0 == u64::MAX && c.1 == u64::MAX {
        assert(v + 1 == 0x100000000000000000000000000000000nat);
    } else {
        assert((v + 1) % 0x100000000000000000000000000000000nat == v + 1);
    }
}

/// A counter pair carries exactly its value: rebuilding the pair from
/// the value gives the pair back.
pub proof fn lemma_ctr_pair_val(c: (u64, u64))
    ensures
        spec_ctr_pair(spec_ctr_val(c)) == c,
{
    let v = spec_ctr_val(c);
    assert(v % 0x10000000000000000 == c.0 && v / 0x10000000000000000 == c.1 as nat)
        by (nonlinear_arith)
        requires
            v == c.0 as nat + c.1 as nat * 0x10000000000000000,
            c.0 <= 0xFFFFFFFFFFFFFFFF,
            c.1 <= 0xFFFFFFFFFFFFFFFF,
    ;
}

/// The key two little-endian words of a 16-byte seed stand for.
pub open spec fn spec_seed_key(seed: Seq<u8>) -> (u64, u64)
    recommends
        seed.len() == 16,
{
    (
        vstd::bytes::spec_u64_from_le_bytes(seed.subrange(0, 8)),
        vstd::bytes::spec_u64_from_le_bytes(seed.subrange(8, 16)),
    )
}

/// The Threefry-2x64 block core: owns the counter and the key, and
/// advances the counter each time a block is produced.
#[derive(Clone, Copy, Debug)]
pub struct ThreeFryCore {
    pub ctr: Array2x64,
    pub key: Array2x64,
}

impl ThreeFryCore {
    /// Seeds a core: the 16 seed bytes are read as two little-endian
    /// 64-bit key words, and the counter starts at zero.
    pub fn from_seed(seed: [u8; 16]) -> (s: Self)
        ensures
            spec_pair(s.ctr) == (0u64, 0u64),
            spec_pair(s.key) == spec_seed_key(seed@),
    {
        let k0: u64 = vstd::bytes::u64_from_le_bytes(
            vstd::slice::slice_subrange(seed.as_slice(), 0, 8),
        );
        let k1: u64 = vstd::bytes::u64_from_le_bytes(
            vstd::slice::slice_subrange(seed.as_slice(), 8, 16),
        );
        ThreeFryCore { ctr: [0, 0], key: [k0, k1] }
    }

    /// Produces one block into `results` and then advances the counter:
    /// word 0 goes up by one, and the carry reaches word 1 exactly when
    /// word 0 wraps from all-ones to zero.  The key is untouched.
    pub fn generate(&mut self, results: &mut Array2x64)
        ensures
            spec_pair(*final(results)) == spec_threefry_block(
                spec_pair(old(self).ctr),
                spec_pair(old(self).key),
            ),
            spec_pair(final(self).ctr) == spec_ctr_inc(spec_pair(old(self).ctr)),
            final(self).key == old(self).key,
    {
        rand(self.ctr, self.key, results);
        self.ctr[0] = self.ctr[0].wrapping_add(1);
        if self.ctr[0] == 0 {
            self.ctr[1] = self.ctr[1].wrapping_add(1);
        }
    }
}

/// Abstract state of the streaming adapter: the counter the next refill
/// will use, the key, the buffered block, and the read cursor into it
/// (2 means the buffer is exhausted).
pub ghost struct StreamModel {
    pub ctr: (u64, u64),
    pub key: (u64, u64),
    pub buf: (u64, u64),
    pub index: nat,
}

/// The buffered word at cursor position `i`.
pub open spec fn spec_buf_word(buf: (u64, u64), i: nat) -> u64 {
    if i == 0 {
        buf.0
    } else {
        buf.1
    }
}

/// One word request against the adapter: serve from the buffer if the
/// cursor has not reached its end, otherwise generate a fresh block
/// (advancing the counter), reset the cursor, and serve its first word.
pub open spec fn spec_stream_next(s: StreamModel) -> (StreamModel, u64) {
    if s.index < 2 {
        (
            StreamModel { ctr: s.ctr, key: s.key, buf: s.buf, index: s.index + 1 },
            spec_buf_word(s.buf, s.index),
        )
    } else {
        let b = spec_threefry_block(s.ctr, s.key);
        (StreamModel { ctr: spec_ctr_inc(s.ctr), key: s.key, buf: b, index: 1 }, b.0)
    }
}

/// A freshly seeded adapter: counter zero, buffer empty.
pub open spec fn spec_fresh(key: (u64, u64)) -> StreamModel {
    StreamModel { ctr: (0u64, 0u64), key: key, buf: (0u64, 0u64), index: 2 }
}

/// The adapter state after `n` word requests.
pub open spec fn spec_iter(s: StreamModel, n: nat) -> StreamModel
    decreases n,
{
    if n == 0 {
        s
    } else {
        spec_iter(spec_stream_next(s).0, (n - 1) as nat)
    }
}

/// The word the `n`-th request (counted from zero) returns.
pub open spec fn spec_pull(s: StreamModel, n: nat) -> u64
    decreases n,
{
    if n == 0 {
        spec_stream_next(s).1
    } else {
        spec_pull(spec_stream_next(s).0, (n - 1) as nat)
    }
}

/// The `n`-th word of the flattened block sequence: blocks in
/// increasing counter order from zero, words in index order within
/// each block.
pub open spec fn spec_stream_word(key: (u64, u64), n: nat) -> u64 {
    let b = spec_threefry_block(spec_ctr_pair(n / 2), key);
    if n % 2 == 0 {
        b.0
    } else {
        b.1
    }
}

proof fn lemma_pull_iter(s: StreamModel, n: nat)
    ensures
        spec_pull(s, n) == spec_stream_next(spec_iter(s, n)).1,
        spec_iter(s, n + 1) == spec_stream_next(spec_iter(s, n)).0,
    decreases n,
{
    assert(spec_iter(s, n + 1) == spec_iter(spec_stream_next(s).0, n));
    if n > 0 {
        lemma_pull_iter(spec_stream_next(s).0, (n - 1) as nat);
    }
}

/// The adapter states that arise after `p` word requests against a
/// freshly seeded adapter: the counter has produced every block up to
/// word position `p`, and an odd position still holds the last block's
/// second word in the buffer.
pub open spec fn spec_models(s: StreamModel, key: (u64, u64), p: nat) -> bool {
    let m = 0x100000000000000000000000000000000nat;
    &&& s.key == key
    &&& if p % 2 == 0 {
        &&& s.index == 2
        &&& spec_ctr_val(s.ctr) == (p / 2) % m
    } else {
        &&& s.index == 1
        &&& spec_ctr_val(s.ctr) == ((p + 1) / 2) % m
        &&& s.buf == spec_threefry_block(spec_ctr_pair(p / 2), key)
    }
}

/// Reducing a value modulo 2^128 does not change the counter pair it
/// stands for.
pub proof fn lemma_ctr_pair_mod(n: nat)
    ensures
        spec_ctr_pair(n % 0x100000000000000000000000000000000nat) == spec_ctr_pair(n),
{
    let w = 0x10000000000000000nat;
    let m = 0x100000000000000000000000000000000nat;
    let k = n % m;
    vstd::arithmetic::div_mod::lemma_breakdown(n as int, w as int, w as int);
    assert(m == w * w) by (nonlinear_arith)
        requires
            w == 0x10000000000000000nat,
            m == 0x100000000000000000000000000000000nat,
    ;
    assert(k == w * ((n / w) % w) + n % w);
    vstd::arithmetic::div_mod::lemma_fundamental_div_mod_converse(
        k as int,
        w as int,
        ((n / w) % w) as int,
        (n % w) as int,
    );
    assert(k % w == n % w);
    assert(k / w == (n / w) % w);
    vstd::arithmetic::div_mod::lemma_mod_twice(((n / w) % w) as int, w as int);
}

#[verifier::rlimit(60)]
proof fn lemma_models_step(s: StreamModel, key: (u64, u64), p: nat)
    requires
        spec_models(s, key, p),
    ensures
        spec_stream_next(s).1 == spec_stream_word(key, p),
        spec_models(spec_stream_next(s).0, key, p + 1),
{
    let m = 0x100000000000000000000000000000000nat;
    if p % 2 == 0 {
        lemma_ctr_pair_val(s.ctr);
        lemma_ctr_pair_mod(p / 2);
        assert(s.ctr == spec_ctr_pair(p / 2));
        lemma_ctr_inc_val(s.ctr);
        vstd::arithmetic::div_mod::lemma_add_mod_noop((p / 2) as int, 1int, m as int);
        vstd::arithmetic::div_mod::lemma_small_mod(1nat, m);
        assert(spec_ctr_val(spec_ctr_inc(s.ctr)) == (p / 2 + 1) % m);
        assert((p + 2) / 2 == p / 2 + 1);
    } else {
        assert((p + 1) / 2 == p / 2 + 1);
    }
}

/// Streaming equivalence: for a freshly seeded adapter, the word that
/// the `n`-th single-word request returns is word `n` of the flattened
/// sequence of mixing-kernel outputs taken in increasing counter order,
/// word-index order within each block.
pub proof fn lemma_streaming_equivalence(key: (u64, u64), n: nat)
    ensures
        spec_pull(spec_fresh(key), n) == spec_stream_word(key, n),
{
    lemma_pull_models(spec_fresh(key), key, 0, n);
}

#[verifier::rlimit(60)]
proof fn lemma_pull_models(s: StreamModel, key: (u64, u64), p: nat, n: nat)
    requires
        spec_models(s, key, p),
    ensures
        spec_pull(s, n) == spec_stream_word(key, p + n),
    decreases n,
{
    lemma_models_step(s, key, p);
    if n > 0 {
        lemma_pull_models(spec_stream_next(s).0, key, p + 1, (n - 1) as nat);
    }
}

/// Seed round-trip: two adapters seeded with the same bytes serve the
/// same word at every position, so their output sequences agree for as
/// many blocks as are ever requested.
pub proof fn lemma_seed_round_trip(s1: StreamModel, s2: StreamModel, seed: Seq<u8>, n: nat)
    requires
        s1 == spec_fresh(spec_seed_key(seed)),
        s2 == spec_fresh(spec_seed_key(seed)),
    ensures
        spec_pull(s1, n) == spec_pull(s2, n),
{
}

/// The streaming adapter: wraps a block core, buffers the last block
/// it generated, and serves the words one at a time.
#[derive(Clone, Copy, Debug)]
pub struct ThreeFryRng {
    pub core: ThreeFryCore,
    pub buf: Array2x64,
    pub index: usize,
}

impl View for ThreeFryRng {
    type V = StreamModel;

    open spec fn view(&self) -> StreamModel {
        StreamModel {
            ctr: spec_pair(self.core.ctr),
            key: spec_pair(self.core.key),
            buf: spec_pair(self.buf),
            index: self.index as nat,
        }
    }
}

impl From<ThreeFryCore> for ThreeFryRng {
    /// Wraps a block core in an adapter whose buffer starts exhausted.
    fn from(core: ThreeFryCore) -> (s: ThreeFryRng) {
        ThreeFryRng { core: core, buf: [0, 0], index: 2 }
    }
}

impl vstd::std_specs::convert::FromSpecImpl<ThreeFryCore> for ThreeFryRng {
    open spec fn obeys_from_spec() -> bool {
        true
    }

    open spec fn from_spec(core: ThreeFryCore) -> ThreeFryRng {
        ThreeFryRng { core: core, buf: [0, 0], index: 2 }
    }
}

impl ThreeFryRng {
    /// The cursor never lies past the buffer's end.
    pub open spec fn wf(&self) -> bool {
        self.index <= 2
    }

    /// Seeds an adapter: the key comes from the 16 seed bytes read as
    /// little-endian words, the counter starts at zero, and the buffer
    /// starts exhausted, so the first request generates a block.
    pub fn from_seed(seed: [u8; 16]) -> (s: Self)
        ensures
            s@ == spec_fresh(spec_seed_key(seed@)),
            s.wf(),
    {
        ThreeFryRng { core: ThreeFryCore::from_seed(seed), buf: [0, 0], index: 2 }
    }

    /// Replaces both key words on a live generator.  The counter, the
    /// buffered block and the cursor are untouched, so the change takes
    /// effect at the next refill.
    pub fn set_key(&mut self, x1: u64, x2: u64)
        ensures
            final(self).core.key == [x1, x2],
            final(self).core.ctr == old(self).core.ctr,
            final(self).buf == old(self).buf,
            final(self).index == old(self).index,
    {
        self.core.key[0] = x1;
        self.core.key[1] = x2;
    }

    /// Serves the next 64-bit word of the stream, refilling the buffer
    /// from the block core when it is exhausted.
    pub fn next_u64(&mut self) -> (r: u64)
        requires
            old(self).wf(),
        ensures
            final(self).wf(),
            (final(self)@, r) == spec_stream_next(old(self)@),
    {
        if self.index >= 2 {
            let mut results: Array2x64 = [0, 0];
            self.core.generate(&mut results);
            self.buf = results;
            self.index = 0;
        }
        let r: u64 = self.buf[self.index];
        self.index = self.index + 1;
        r
    }

    /// Serves the next word truncated to its low 32 bits.
    pub fn next_u32(&mut self) -> (r: u32)
        requires
            old(self).wf(),
        ensures
            final(self).wf(),
            final(self)@ == spec_stream_next(old(self)@).0,
            r == spec_stream_next(old(self)@).1 as u32,
    {
        let w: u64 = self.next_u64();
        #[verifier::truncate] (w as u32)
    }

    /// Fills `dest` with the little-endian bytes of consecutive stream
    /// words: byte `j` comes from byte `j % 8` of the word the request
    /// `j / 8` would pull.  The adapter advances by one word for every
    /// started group of eight bytes; the unused tail of the last word
    /// is discarded.
    pub fn fill_bytes(&mut self, dest: &mut Vec<u8>)
        requires
            old(self).wf(),
        ensures
            final(self).wf(),
            final(dest)@.len() == old(dest)@.len(),
            final(self)@ == spec_iter(old(self)@, ((old(dest)@.len() + 7) / 8) as nat),
            forall|j: int|
                0 <= j < old(dest)@.len() ==> final(dest)@[j] == vstd::bytes::spec_u64_to_le_bytes(
                    spec_pull(old(self)@, (j / 8) as nat),
                )[j % 8],
    {
        let ghost s0 = self@;
        let len: usize = dest.len();
        let mut i: usize = 0;
        while i < len
            invariant
                self.wf(),
                dest@.len() == len,
                i <= len,
                i % 8 == 0 || i == len,
                self@ == spec_iter(s0, ((i + 7) / 8) as nat),
                forall|j: int|
                    0 <= j < i ==> dest@[j] == vstd::bytes::spec_u64_to_le_bytes(
                        spec_pull(s0, (j / 8) as nat),
                    )[j % 8],
            decreases len - i,
        {
            proof {
                lemma_pull_iter(s0, (i / 8) as nat);
            }
            let w: u64 = self.next_u64();
            assert(w == spec_pull(s0, (i / 8) as nat));
            let bytes: Vec<u8> = vstd::bytes::u64_to_le_bytes(w);
            let mut j: usize = 0;
            while j < 8 && j < len - i
                invariant
                    i < len,
                    dest@.len() == len,
                    j <= 8,
                    i + j <= len,
                    i % 8 == 0,
                    bytes@.len() == 8,
                    bytes@ == vstd::bytes::spec_u64_to_le_bytes(w),
                    forall|jj: int|
                        0 <= jj < i ==> dest@[jj] == vstd::bytes::spec_u64_to_le_bytes(
                            spec_pull(s0, (jj / 8) as nat),
                        )[jj % 8],
                    forall|jj: int| i <= jj < i + j ==> dest@[jj] == bytes@[jj - i],
                decreases 8 - j,
            {
                dest[i + j] = bytes[j];
                j = j + 1;
            }
            assert forall|jj: int| i <= jj < i + j implies dest@[jj]
                == vstd::bytes::spec_u64_to_le_bytes(spec_pull(s0, (jj / 8) as nat))[jj % 8] by {
                assert(jj / 8 == i / 8 && jj % 8 == jj - i);
            }
            if len - i < 8 {
                i = len;
            } else {
                i = i + 8;
            }
        }
    }
}

} // verus!
