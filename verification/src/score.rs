//! Difficulty scoring: the leading-zero-bit count of a hash.

use vstd::prelude::*;
use vstd::std_specs::bits::u8_leading_zeros;
use vstd::std_specs::bits::axiom_u8_leading_zeros;

verus! {

/// The number of leading zero bits of a byte string read as a big-endian
/// integer: 8 for every leading zero byte, plus the leading zero bits of
/// the first nonzero byte.
pub open spec fn leading_zero_bits(h: Seq<u8>) -> int
    decreases h.len(),
{
    if h.len() == 0 {
        0
    } else if h[0] == 0 {
        8 + leading_zero_bits(h.drop_first())
    } else {
        u8_leading_zeros(h[0]) as int
    }
}

/// The difficulty of a byte string never exceeds eight bits per byte.
pub proof fn lemma_leading_zero_bits_bounds(h: Seq<u8>)
    ensures
        0 <= leading_zero_bits(h) <= 8 * h.len(),
    decreases h.len(),
{
    if h.len() > 0 {
        if h[0] == 0 {
            lemma_leading_zero_bits_bounds(h.drop_first());
        } else {
            axiom_u8_leading_zeros(h[0]);
        }
    }
}

/// Skipping a prefix of zero bytes costs eight bits per byte skipped.
proof fn lemma_leading_zero_bits_skip(h: Seq<u8>, i: int)
    requires
        0 <= i <= h.len(),
        forall|j: int| 0 <= j < i ==> h[j] == 0,
    ensures
        leading_zero_bits(h) == 8 * i + leading_zero_bits(h.skip(i)),
    decreases i,
{
    if i > 0 {
        lemma_leading_zero_bits_skip(h.drop_first(), i - 1);
        assert(h.drop_first().skip(i - 1) =~= h.skip(i));
    } else {
        assert(h.skip(0) =~= h);
    }
}

/// Returns the number of leading zero bits on a 32-byte buffer.
pub fn difficulty(hash: [u8; 32]) -> (r: u32)
    ensures
        r == leading_zero_bits(hash@),
        r <= 256,
{
    let mut count: u32 = 0;
    let mut i: usize = 0;
    while i < 32
        invariant
            i <= 32,
            count == 8 * i,
            forall|j: int| 0 <= j < i ==> hash@[j] == 0,
        decreases 32 - i,
    {
        let lz = hash[i].leading_zeros();
        proof {
            axiom_u8_leading_zeros(hash@[i as int]);
        }
        count = count + lz;
        if lz < 8 {
            proof {
                lemma_leading_zero_bits_skip(hash@, i as int);
                assert(hash@.skip(i as int)[0] == hash@[i as int]);
                lemma_leading_zero_bits_bounds(hash@.skip(i as int));
            }
            return count;
        }
        i = i + 1;
    }
    proof {
        lemma_leading_zero_bits_skip(hash@, 32);
        assert(hash@.skip(32) =~= Seq::<u8>::empty());
    }
    count
}

} // verus!
