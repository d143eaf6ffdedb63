use drillx::difficulty;
use drillx::sorted;
use drillx::Solution;

#[test]
fn solution_round_trip() {
    let d: [u8; 16] = [9, 8, 7, 6, 5, 4, 3, 2, 1, 0, 11, 22, 33, 44, 55, 66];
    let n: [u8; 8] = [1, 2, 3, 4, 5, 6, 7, 8];
    let s = Solution::new(d, n);
    let decoded = Solution::from_bytes(s.to_bytes());
    assert_eq!(decoded.d, d);
    assert_eq!(decoded.n, n);
}

#[test]
fn solution_encoding_layout() {
    let d: [u8; 16] = [0xAA; 16];
    let n: [u8; 8] = [0xBB; 8];
    let bytes = Solution::new(d, n).to_bytes();
    assert_eq!(&bytes[..16], &d[..]);
    assert_eq!(&bytes[16..], &n[..]);
}

#[test]
fn sorted_is_idempotent() {
    let d: [u8; 16] = [1, 0, 0, 1, 255, 255, 0, 0, 2, 0, 1, 1, 3, 0, 1, 0];
    let once = sorted(d);
    let twice = sorted(once);
    assert_eq!(once, twice);

    let zero = [0u8; 16];
    assert_eq!(sorted(zero), sorted(sorted(zero)));
}

#[test]
fn sorted_orders_little_endian_words() {
    // words: 1, 256, 65535, 0, 2, 257, 3, 1 -> 0, 1, 1, 2, 3, 256, 257, 65535
    let d: [u8; 16] = [1, 0, 0, 1, 255, 255, 0, 0, 2, 0, 1, 1, 3, 0, 1, 0];
    let expected: [u8; 16] = [0, 0, 1, 0, 1, 0, 2, 0, 3, 0, 0, 1, 1, 1, 255, 255];
    assert_eq!(sorted(d), expected);
}

#[test]
fn sorted_of_sorted_input_is_unchanged() {
    let d: [u8; 16] = [0, 0, 1, 0, 1, 0, 2, 0, 3, 0, 0, 1, 1, 1, 255, 255];
    assert_eq!(sorted(d), d);
}

#[test]
fn difficulty_of_all_zero_hash_is_256() {
    assert_eq!(difficulty([0u8; 32]), 256);
}

#[test]
fn difficulty_counts_partial_byte() {
    // byte 0 contributes 8 zero bits, byte 1 (0x0F) contributes 4, then stops.
    let mut h = [0xFFu8; 32];
    h[0] = 0x00;
    h[1] = 0x0F;
    assert_eq!(difficulty(h), 12);
}

#[test]
fn difficulty_of_high_bit_is_0() {
    let mut h = [0u8; 32];
    h[0] = 0x80;
    assert_eq!(difficulty(h), 0);
}

#[test]
fn difficulty_stays_in_bounds() {
    let mut h = [0u8; 32];
    for b in 0..=255u8 {
        h[0] = b;
        let r = difficulty(h);
        assert!(r <= 256);
    }
}

#[test]
fn permuted_digests_hash_identically() {
    // The same 8 words in two different orders.
    let d1: [u8; 16] = [1, 0, 0, 1, 255, 255, 0, 0, 2, 0, 1, 1, 3, 0, 1, 0];
    let d2: [u8; 16] = [255, 255, 1, 0, 0, 0, 0, 1, 1, 0, 3, 0, 1, 1, 2, 0];
    assert_ne!(d1, d2);
    let n: [u8; 8] = [7, 7, 7, 7, 0, 0, 0, 1];
    let h1 = Solution::new(d1, n).to_hash();
    let h2 = Solution::new(d2, n).to_hash();
    assert_eq!(h1.h, h2.h);
    // to_hash must not disturb the stored digest.
    assert_eq!(h1.d, d1);
    assert_eq!(h2.d, d2);
}

#[test]
fn to_hash_matches_keccak256_of_sorted_digest_and_nonce() {
    let d: [u8; 16] = [1, 0, 0, 1, 255, 255, 0, 0, 2, 0, 1, 1, 3, 0, 1, 0];
    let n: [u8; 8] = [0, 1, 2, 3, 4, 5, 6, 7];
    let got = Solution::new(d, n).to_hash().h;

    let mut input = [0u8; 24];
    input[..16].copy_from_slice(&sorted(d));
    input[16..].copy_from_slice(&n);
    let expected = <sha3::Keccak256 as sha3::Digest>::digest(input);
    assert_eq!(&got[..], &expected[..]);
}
