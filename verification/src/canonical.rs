//! Canonical form of a solver digest.
//!
//! A digest is 16 bytes read as 8 little-endian 16-bit words whose *set*,
//! not order, identifies the logical solution. Sorting the words ascending
//! collapses every byte encoding of the same logical solution to one
//! canonical form, so hashing the canonical form resists malleability.

use vstd::prelude::*;
use vstd::relations::sorted_by;
use vstd::relations::total_ordering;
use vstd::seq_lib::lemma_sorted_unique;
use vstd::seq_lib::to_multiset_build;
use vstd::seq_lib::to_multiset_insert;

verus! {

/// Ascending order on 16-bit words.
pub open spec fn u16_le(a: u16, b: u16) -> bool {
    a <= b
}

/// The ascending order as a relation value, for sorting.
pub open spec fn u16_le_fn() -> spec_fn(u16, u16) -> bool {
    |a: u16, b: u16| u16_le(a, b)
}

/// The 16-bit word at index `i` of a digest, little endian.
pub open spec fn word_at(d: Seq<u8>, i: int) -> u16 {
    (d[2 * i] + 256 * d[2 * i + 1]) as u16
}

/// A digest read as its sequence of little-endian 16-bit words.
pub open spec fn words_of(d: Seq<u8>) -> Seq<u16> {
    Seq::new(d.len() / 2, |i: int| word_at(d, i))
}

/// A word sequence written back as little-endian bytes.
pub open spec fn bytes_of(w: Seq<u16>) -> Seq<u8> {
    Seq::new(
        w.len() * 2,
        |i: int|
            if i % 2 == 0 {
                (w[i / 2] % 256) as u8
            } else {
                (w[i / 2] / 256) as u8
            },
    )
}

/// The words of a digest, sorted ascending.
pub open spec fn sorted_words(d: Seq<u8>) -> Seq<u16> {
    words_of(d).sort_by(u16_le_fn())
}

/// The canonical byte form of a digest: its words sorted ascending,
/// re-encoded little endian.
pub open spec fn canonical_digest(d: Seq<u8>) -> Seq<u8> {
    bytes_of(sorted_words(d))
}

/// Ascending order on 16-bit words is a total order.
pub proof fn lemma_u16_le_total_ordering()
    ensures
        total_ordering(u16_le_fn()),
{
}

/// Reading back the bytes of a word sequence yields the same words.
pub proof fn lemma_words_of_bytes_of(w: Seq<u16>)
    ensures
        words_of(bytes_of(w)) == w,
{
    assert forall|i: int| 0 <= i < w.len() implies words_of(bytes_of(w))[i] == w[i] by {
        let b = bytes_of(w);
        assert(b[2 * i] == (w[i] % 256) as u8);
        assert(b[2 * i + 1] == (w[i] / 256) as u8);
        assert(w[i] % 256 + 256 * (w[i] / 256) == w[i]) by (nonlinear_arith);
    }
    assert(words_of(bytes_of(w)) =~= w);
}

/// The canonical form is determined by the multiset of words alone: two
/// digests holding the same 8 words in any orders share one canonical form.
pub proof fn lemma_canonical_of_permutation(d1: Seq<u8>, d2: Seq<u8>)
    requires
        words_of(d1).to_multiset() == words_of(d2).to_multiset(),
    ensures
        canonical_digest(d1) == canonical_digest(d2),
{
    lemma_u16_le_total_ordering();
    words_of(d1).lemma_sort_by_ensures(u16_le_fn());
    words_of(d2).lemma_sort_by_ensures(u16_le_fn());
    lemma_sorted_unique(sorted_words(d1), sorted_words(d2), u16_le_fn());
    assert(sorted_words(d1) == sorted_words(d2));
}

/// Canonicalizing is idempotent: the canonical form of a canonical digest
/// is that digest itself.
pub proof fn lemma_canonical_idempotent(d: Seq<u8>)
    ensures
        canonical_digest(canonical_digest(d)) == canonical_digest(d),
{
    lemma_u16_le_total_ordering();
    let s = sorted_words(d);
    words_of(d).lemma_sort_by_ensures(u16_le_fn());
    lemma_words_of_bytes_of(s);
    s.lemma_sort_by_ensures(u16_le_fn());
    lemma_sorted_unique(s.sort_by(u16_le_fn()), s, u16_le_fn());
    assert(sorted_words(canonical_digest(d)) == s);
}

/// Sorts the digest's 8 little-endian 16-bit words ascending, returning the
/// canonical byte form.
pub fn sorted(digest: [u8; 16]) -> (r: [u8; 16])
    ensures
        r@ == canonical_digest(digest@),
{
    let mut words: Vec<u16> = Vec::new();
    let mut i: usize = 0;
    while i < 8
        invariant
            i <= 8,
            words@.len() == i,
            forall|j: int| 0 <= j < i ==> words@[j] == word_at(digest@, j),
        decreases 8 - i,
    {
        let w: u16 = (digest[2 * i] as u16) + 256 * (digest[2 * i + 1] as u16);
        words.push(w);
        i = i + 1;
    }
    proof {
        assert(words@ =~= words_of(digest@));
    }

    let mut out: Vec<u16> = Vec::new();
    proof {
        assert(out@ =~= words@.take(0));
    }
    let mut i: usize = 0;
    while i < 8
        invariant
            i <= 8,
            words@ == words_of(digest@),
            words@.len() == 8,
            out@.len() == i,
            sorted_by(out@, u16_le_fn()),
            out@.to_multiset() == words@.take(i as int).to_multiset(),
        decreases 8 - i,
    {
        let w = words[i];
        let mut pos: usize = 0;
        while pos < out.len() && out[pos] <= w
            invariant
                pos <= out@.len(),
                forall|j: int| 0 <= j < pos ==> u16_le(#[trigger] out@[j], w),
            decreases out@.len() - pos,
        {
            pos = pos + 1;
        }
        proof {
            let s2 = out@.insert(pos as int, w);
            out@.insert_ensures(pos as int, w);
            assert forall|a: int, b: int| 0 <= a < b < s2.len() implies #[trigger] u16_le_fn()(
                s2[a],
                s2[b],
            ) by {
                if b < pos {
                    assert(u16_le_fn()(out@[a], out@[b]));
                } else if a == pos && b > pos {
                    if pos < b - 1 {
                        assert(u16_le_fn()(out@[pos as int], out@[b - 1]));
                    }
                } else if a < pos && b == pos {
                } else if a < pos && b > pos {
                    assert(u16_le_fn()(out@[a], out@[b - 1]));
                } else if a > pos {
                    assert(u16_le_fn()(out@[a - 1], out@[b - 1]));
                }
            }
            assert(sorted_by(s2, u16_le_fn()));
            to_multiset_insert(out@, pos as int, w);
            to_multiset_build(words@.take(i as int), words@[i as int]);
            assert(words@.take(i as int).push(words@[i as int]) =~= words@.take(i + 1));
        }
        out.insert(pos, w);
        i = i + 1;
    }
    proof {
        assert(words@.take(8) =~= words@);
        lemma_u16_le_total_ordering();
        words_of(digest@).lemma_sort_by_ensures(u16_le_fn());
        lemma_sorted_unique(out@, sorted_words(digest@), u16_le_fn());
        assert(out@ == sorted_words(digest@));
    }

    let mut r = [0u8; 16];
    let mut i: usize = 0;
    while i < 8
        invariant
            i <= 8,
            out@ == sorted_words(digest@),
            out@.len() == 8,
            forall|j: int| 0 <= j < 2 * i ==> r@[j] == bytes_of(out@)[j],
        decreases 8 - i,
    {
        let w = out[i];
        r[2 * i] = (w % 256) as u8;
        r[2 * i + 1] = (w / 256) as u8;
        i = i + 1;
    }
    proof {
        assert(r@ =~= bytes_of(out@));
    }
    r
}

} // verus!
