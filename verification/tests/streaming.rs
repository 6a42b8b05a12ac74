//! Streaming adapters: word order, counter advancement, re-keying,
//! byte fills, and seed round-trips.

use random123::philox::{philox_2x32, philox_2x64, philox_4x32, philox_4x64};
use random123::rng::{Philox2x32Rng, Philox2x64Rng, Philox4x32Rng, Philox4x64Rng};
use random123::threefry::{Array2x64, ThreeFryCore, ThreeFryRng};

use rand_core::SeedableRng;

/// Wires the library's adapter to rand_core's seeding entry points,
/// the way a consumer of the crate would.
struct SeededThreeFry(ThreeFryRng);

impl SeedableRng for SeededThreeFry {
    type Seed = [u8; 16];

    fn from_seed(seed: Self::Seed) -> Self {
        SeededThreeFry(ThreeFryRng::from_seed(seed))
    }
}

const TEST_VEC_1: [u64; 20] = [
    0x3c956fe5e3e09745,
    0x911f953cce0c0674,
    0xbf307d9a09b8e517,
    0x21255fa6b494c50e,
    0x36767323a0f90211,
    0xb5912b450fc89b38,
    0x2d5703abf89c5424,
    0xa0c7471ae60d0622,
    0x24a9f70a44338b6d,
    0xd1396ce94674b224,
    0xa30049ea40bfed1,
    0xec7400474a7fe8f0,
    0x37fa17b7c8b37514,
    0x7d38e5e4f0eb3a1,
    0x1e176ae521a2c8c6,
    0x88f7022bae92e50d,
    0x19ce7fbd095eb0f8,
    0x65eaf3fc558b735c,
    0xfad725f62c08e780,
    0x1e91764c67bc64e6,
];

const SEED1_U64: u64 = 0xdeadbeef12345678;
const SEED2_U64: u64 = 0xdecafbadbeadfeed;

#[test]
fn lib_next_u64() {
    let ctr: Array2x64 = [0, 0];
    let key: Array2x64 = [SEED1_U64, SEED2_U64];
    let mut rng = random123::ThreeFryRng { ctr, key };
    for i in 0..10 {
        assert_eq!(rng.next_u64(), TEST_VEC_1[2 * i]);
    }
}

#[test]
fn threefry_next_u64() {
    let mut rng = SeededThreeFry::seed_from_u64(0);
    rng.0.set_key(SEED1_U64, SEED2_U64);
    for i in 0..20 {
        assert_eq!(rng.0.next_u64(), TEST_VEC_1[i]);
    }
}

#[test]
fn seedable() {
    let mut rng = SeededThreeFry::seed_from_u64(42);
    assert_eq!(rng.0.next_u64(), 391376552519608501);
}

#[test]
fn counter_advancement() {
    let mut core = ThreeFryCore::from_seed([0u8; 16]);
    let mut block: Array2x64 = [0, 0];
    assert_eq!(core.ctr, [0, 0]);
    core.generate(&mut block);
    assert_eq!(core.ctr, [1, 0]);
    core.ctr = [u64::MAX, 5];
    core.generate(&mut block);
    assert_eq!(core.ctr, [0, 6]);
    core.ctr = [u64::MAX - 1, 7];
    core.generate(&mut block);
    assert_eq!(core.ctr, [u64::MAX, 7]);
}

#[test]
fn rekeying_changes_output_not_counter() {
    let seed = [0xA5u8; 16];
    let mut original = ThreeFryRng::from_seed(seed);
    let mut rekeyed = ThreeFryRng::from_seed(seed);
    // Consume one full block on both so the counters have moved.
    for _ in 0..2 {
        original.next_u64();
        rekeyed.next_u64();
    }
    let ctr_before = rekeyed.core.ctr;
    rekeyed.set_key(SEED1_U64, SEED2_U64);
    assert_eq!(rekeyed.core.ctr, ctr_before);
    assert_eq!(rekeyed.core.ctr, original.core.ctr);
    // The next block comes from the same counter but the new key.
    assert_ne!(rekeyed.next_u64(), original.next_u64());
}

#[test]
fn seed_round_trip() {
    let seed: [u8; 16] = [
        0x78, 0x56, 0x34, 0x12, 0xef, 0xbe, 0xad, 0xde, 0xed, 0xfe, 0xad, 0xbe, 0xad, 0xfb,
        0xca, 0xde,
    ];
    let mut a = ThreeFryRng::from_seed(seed);
    let mut b = ThreeFryRng::from_seed(seed);
    // Ten blocks of two words each.
    for _ in 0..20 {
        assert_eq!(a.next_u64(), b.next_u64());
    }
}

#[test]
fn seed_reads_bytes_little_endian() {
    // The seed bytes above spell the documented example key.
    let seed: [u8; 16] = [
        0x78, 0x56, 0x34, 0x12, 0xef, 0xbe, 0xad, 0xde, 0xed, 0xfe, 0xad, 0xbe, 0xad, 0xfb,
        0xca, 0xde,
    ];
    let core = ThreeFryCore::from_seed(seed);
    assert_eq!(core.key, [SEED1_U64, SEED2_U64]);
    assert_eq!(core.ctr, [0, 0]);
    let mut rng = ThreeFryRng::from_seed(seed);
    for i in 0..20 {
        assert_eq!(rng.next_u64(), TEST_VEC_1[i]);
    }
}

#[test]
fn streaming_equivalence() {
    // The word stream equals the flattening of successive kernel calls
    // in increasing counter order.
    let seed: [u8; 16] = [
        0x78, 0x56, 0x34, 0x12, 0xef, 0xbe, 0xad, 0xde, 0xed, 0xfe, 0xad, 0xbe, 0xad, 0xfb,
        0xca, 0xde,
    ];
    let mut rng = ThreeFryRng::from_seed(seed);
    let key: Array2x64 = [SEED1_U64, SEED2_U64];
    for i in 0..10u64 {
        let block = random123::generate([i, 0], key);
        assert_eq!(rng.next_u64(), block[0]);
        assert_eq!(rng.next_u64(), block[1]);
    }
}

#[test]
fn fill_bytes_matches_word_stream() {
    let seed = [0x3Cu8; 16];
    let mut filler = ThreeFryRng::from_seed(seed);
    let mut puller = ThreeFryRng::from_seed(seed);
    let mut buf = vec![0u8; 13];
    filler.fill_bytes(&mut buf);
    let w0 = puller.next_u64().to_le_bytes();
    let w1 = puller.next_u64().to_le_bytes();
    assert_eq!(&buf[0..8], &w0[..]);
    assert_eq!(&buf[8..13], &w1[0..5]);
    // Both adapters sit at the same stream position afterwards.
    assert_eq!(filler.next_u64(), puller.next_u64());
}

#[test]
fn fill_bytes_empty_leaves_state() {
    let seed = [0x3Cu8; 16];
    let mut filler = ThreeFryRng::from_seed(seed);
    let mut other = ThreeFryRng::from_seed(seed);
    let mut buf: Vec<u8> = Vec::new();
    filler.fill_bytes(&mut buf);
    assert_eq!(buf.len(), 0);
    assert_eq!(filler.next_u64(), other.next_u64());
}

#[test]
fn unbuffered_fill_bytes() {
    let ctr: Array2x64 = [0, 0];
    let key: Array2x64 = [SEED1_U64, SEED2_U64];
    let mut rng = random123::ThreeFryRng { ctr, key };
    let mut buf = vec![0u8; 11];
    rng.fill_bytes(&mut buf);
    // Word requests serve only the first word of each block.
    let w0 = TEST_VEC_1[0].to_le_bytes();
    let w1 = TEST_VEC_1[2].to_le_bytes();
    assert_eq!(&buf[0..8], &w0[..]);
    assert_eq!(&buf[8..11], &w1[0..3]);
    assert_eq!(rng.ctr, [2, 0]);
}

#[test]
fn unbuffered_next_u32_truncates() {
    let ctr: Array2x64 = [0, 0];
    let key: Array2x64 = [SEED1_U64, SEED2_U64];
    let mut rng = random123::ThreeFryRng { ctr, key };
    assert_eq!(rng.next_u32(), TEST_VEC_1[0] as u32);
    assert_eq!(rng.next_u32(), TEST_VEC_1[2] as u32);
}

#[test]
fn adapter_from_core_serves_the_core_stream() {
    let seed: [u8; 16] = [
        0x78, 0x56, 0x34, 0x12, 0xef, 0xbe, 0xad, 0xde, 0xed, 0xfe, 0xad, 0xbe, 0xad, 0xfb,
        0xca, 0xde,
    ];
    let core = ThreeFryCore::from_seed(seed);
    let mut rng = ThreeFryRng::from(core);
    for i in 0..20 {
        assert_eq!(rng.next_u64(), TEST_VEC_1[i]);
    }
}

#[test]
fn buffered_next_u32_truncates() {
    let seed: [u8; 16] = [
        0x78, 0x56, 0x34, 0x12, 0xef, 0xbe, 0xad, 0xde, 0xed, 0xfe, 0xad, 0xbe, 0xad, 0xfb,
        0xca, 0xde,
    ];
    let mut rng = ThreeFryRng::from_seed(seed);
    assert_eq!(rng.next_u32(), TEST_VEC_1[0] as u32);
    assert_eq!(rng.next_u32(), TEST_VEC_1[1] as u32);
    assert_eq!(rng.next_u32(), TEST_VEC_1[2] as u32);
}

#[test]
fn philox2x32_streaming_matches_blocks() {
    let mut rng = Philox2x32Rng::from_seed([0x11, 0x11, 0x11, 0x11]);
    for i in 0..10u32 {
        let block = philox_2x32([i, 0], [0x11111111]);
        assert_eq!(rng.next_u32(), block[0]);
        assert_eq!(rng.next_u32(), block[1]);
    }
}

#[test]
fn philox2x64_streaming_matches_blocks() {
    let mut rng = Philox2x64Rng::from_seed([0x11, 0x22, 0x33, 0x44, 0x55, 0x66, 0x77, 0x88]);
    let key = 0x8877665544332211u64;
    for i in 0..10u64 {
        let block = philox_2x64([i, 0], [key]);
        assert_eq!(rng.next_u64(), block[0]);
        assert_eq!(rng.next_u64(), block[1]);
    }
}

#[test]
fn philox4x32_streaming_matches_blocks() {
    let mut rng = Philox4x32Rng::from_seed([0x11, 0x11, 0x11, 0x11, 0x22, 0x22, 0x22, 0x22]);
    for i in 0..10u32 {
        let block = philox_4x32([i, 0, 0, 0], [0x11111111, 0x22222222]);
        for j in 0..4 {
            assert_eq!(rng.next_u32(), block[j]);
        }
    }
}

#[test]
fn philox4x64_streaming_matches_blocks() {
    let mut seed = [0u8; 16];
    seed[0] = 1;
    seed[8] = 2;
    let mut rng = Philox4x64Rng::from_seed(seed);
    for i in 0..10u64 {
        let block = philox_4x64([i, 0, 0, 0], [1, 2]);
        for j in 0..4 {
            assert_eq!(rng.next_u64(), block[j]);
        }
    }
}

#[test]
fn philox_seed_round_trip() {
    let seed = [0xC3u8, 0x5A, 0x96, 0x0F, 0x11, 0x22, 0x33, 0x44];
    let mut a = Philox4x32Rng::from_seed(seed);
    let mut b = Philox4x32Rng::from_seed(seed);
    for _ in 0..40 {
        assert_eq!(a.next_u32(), b.next_u32());
    }
}
