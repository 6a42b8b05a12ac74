//! Known-answer vectors and determinism checks for the mixing kernels.

use random123::philox::{
    mul32, mul64, philox_1x64key, philox_2x32, philox_2x32key, philox_2x64, philox_2x64key,
    philox_2x64round, philox_4x32, philox_4x32round, philox_4x64, philox_4x64round,
};
use random123::threefry::{rand, Array2x64};
use random123::generate;

const TEST_VEC_1: [u64; 20] = [
    0x3c956fe5e3e09745,
    0x911f953cce0c0674,
    0xbf307d9a09b8e517,
    0x21255fa6b494c50e,
    0x36767323a0f90211,
    0xb5912b450fc89b38,
    0x2d5703abf89c5424,
    0xa0c7471ae60d0622,
    0x24a9f70a44338b6d,
    0xd1396ce94674b224,
    0xa30049ea40bfed1,
    0xec7400474a7fe8f0,
    0x37fa17b7c8b37514,
    0x7d38e5e4f0eb3a1,
    0x1e176ae521a2c8c6,
    0x88f7022bae92e50d,
    0x19ce7fbd095eb0f8,
    0x65eaf3fc558b735c,
    0xfad725f62c08e780,
    0x1e91764c67bc64e6,
];

const EXAMPLE_SEED1_U64: u64 = 0xdeadbeef12345678;
const EXAMPLE_SEED2_U64: u64 = 0xdecafbadbeadfeed;

const PHILOX_TEST_VEC: [u32; 40] = [
    0xcc7d356a, 0x5e7dedd7, 0x76798bc3, 0x6c05818c, 0x4d7d84fc, 0x44ea4626, 0x26680a11,
    0xc5c86681, 0x5344ffa0, 0xa0300aea, 0x650c4611, 0xf274539d, 0x99b25360, 0x9316678,
    0xd791ce76, 0xb12c3349, 0xa65ceb5, 0x9514aef7, 0xe5528b10, 0x7e6416b4, 0x36f3b5f,
    0xa78d244b, 0x192afe87, 0xfa93201, 0x45d59db0, 0xd93533dd, 0x150a6435, 0x88f8a2e8,
    0x1882b35, 0xe365ff23, 0x4e06c6cf, 0x4a2d3133, 0x1ea732e6, 0x8835f7fd, 0x20219e72,
    0xfde01b3a, 0xc1c5424f, 0x1591eacd, 0x90e83125, 0x471a8bf4,
];

const PHILOX_SEED1: u32 = 0x11111111;
const PHILOX_SEED2: u32 = 0x22222222;

#[test]
fn lib_exact_values() {
    let mut ctr: Array2x64 = [0, 0];
    let key: Array2x64 = [EXAMPLE_SEED1_U64, EXAMPLE_SEED2_U64];
    for i in 0..10 {
        ctr[0] = i;
        let rand = generate(ctr, key);
        let i0 = (2 * i + 0) as usize;
        let i1 = (2 * i + 1) as usize;
        assert_eq!(rand[0], TEST_VEC_1[i0]);
        assert_eq!(rand[1], TEST_VEC_1[i1]);
    }
}

#[test]
fn threefry_exact_values() {
    let mut ctr: Array2x64 = [0, 0];
    let key: Array2x64 = [EXAMPLE_SEED1_U64, EXAMPLE_SEED2_U64];
    let mut x: Array2x64 = [0, 0];
    for i in 0..10 {
        ctr[0] = i;
        rand(ctr, key, &mut x);
        let i0 = (2 * i + 0) as usize;
        let i1 = (2 * i + 1) as usize;
        assert_eq!(x[0], TEST_VEC_1[i0]);
        assert_eq!(x[1], TEST_VEC_1[i1]);
    }
}

#[test]
fn philox_exact_values() {
    let mut ctr = [0u32, 0, 0, 0];
    let key = [PHILOX_SEED1, PHILOX_SEED2];
    for i in 0..10 {
        ctr[0] = i;
        let x = philox_4x32(ctr, key);
        let i0 = (4 * i + 0) as usize;
        let i1 = (4 * i + 1) as usize;
        let i2 = (4 * i + 2) as usize;
        let i3 = (4 * i + 3) as usize;
        assert_eq!(x[0], PHILOX_TEST_VEC[i0]);
        assert_eq!(x[1], PHILOX_TEST_VEC[i1]);
        assert_eq!(x[2], PHILOX_TEST_VEC[i2]);
        assert_eq!(x[3], PHILOX_TEST_VEC[i3]);
    }
}

#[test]
fn threefry_deterministic() {
    let ctr: Array2x64 = [7, 1973];
    let key: Array2x64 = [EXAMPLE_SEED1_U64, EXAMPLE_SEED2_U64];
    assert_eq!(generate(ctr, key), generate(ctr, key));
    let mut x: Array2x64 = [0, 0];
    let mut y: Array2x64 = [0, 0];
    rand(ctr, key, &mut x);
    rand(ctr, key, &mut y);
    assert_eq!(x, y);
    assert_eq!(generate(ctr, key), x);
}

#[test]
fn philox_deterministic() {
    assert_eq!(
        philox_2x32([5, 6], [7]),
        philox_2x32([5, 6], [7]),
    );
    assert_eq!(
        philox_2x64([5, 6], [7]),
        philox_2x64([5, 6], [7]),
    );
    assert_eq!(
        philox_4x32([1, 2, 3, 4], [5, 6]),
        philox_4x32([1, 2, 3, 4], [5, 6]),
    );
    assert_eq!(
        philox_4x64([1, 2, 3, 4], [5, 6]),
        philox_4x64([1, 2, 3, 4], [5, 6]),
    );
}

#[test]
fn philox_full_matches_unrolled_rounds() {
    let key0 = [PHILOX_SEED1, PHILOX_SEED2];
    let ctr0 = [9u32, 8, 7, 6];
    let mut ctr = philox_4x32round(ctr0, key0);
    let mut key = key0;
    for _ in 0..9 {
        key = philox_2x32key(key);
        ctr = philox_4x32round(ctr, key);
    }
    assert_eq!(philox_4x32(ctr0, key0), ctr);
}

#[test]
fn philox_64bit_rounds_compose() {
    let ctr0 = [3u64, 1, 4, 1];
    let key0 = [5u64, 9];
    let mut ctr = philox_4x64round(ctr0, key0);
    let mut key = key0;
    for _ in 0..9 {
        key = philox_2x64key(key);
        ctr = philox_4x64round(ctr, key);
    }
    assert_eq!(philox_4x64(ctr0, key0), ctr);

    let ctr0 = [3u64, 1];
    let key0 = [5u64];
    let mut ctr = philox_2x64round(ctr0, key0);
    let mut key = key0;
    for _ in 0..9 {
        key = philox_1x64key(key);
        ctr = philox_2x64round(ctr, key);
    }
    assert_eq!(philox_2x64(ctr0, key0), ctr);
}

#[test]
fn mul_halves_carry_whole_product() {
    let (hi, lo) = mul32(0xFFFFFFFF, 0xFFFFFFFF);
    assert_eq!(((hi as u64) << 32) | lo as u64, 0xFFFFFFFFu64 * 0xFFFFFFFFu64);
    let (hi, lo) = mul64(0xFFFFFFFFFFFFFFFF, 0xFFFFFFFFFFFFFFFF);
    assert_eq!(
        ((hi as u128) << 64) | lo as u128,
        0xFFFFFFFFFFFFFFFFu128 * 0xFFFFFFFFFFFFFFFFu128
    );
    let (hi, lo) = mul64(0, 0xFFFFFFFFFFFFFFFF);
    assert_eq!((hi, lo), (0, 0));
}
