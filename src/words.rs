//! 32-bit words as the bytes of a storage buffer, and back. Storage buffers
//! hold each `u32` as four bytes, least significant first.
use vstd::prelude::*;
use vstd::bytes::{
    lemma_auto_spec_u32_to_from_le_bytes,
    spec_u32_from_le_bytes,
    spec_u32_to_le_bytes,
    u32_from_le_bytes,
    u32_to_le_bytes,
};
use vstd::slice::slice_subrange;

verus! {

/// The bytes of `ws`: four little-endian bytes per word, words in order.
pub open spec fn words_to_bytes(ws: Seq<u32>) -> Seq<u8> {
    Seq::new(4 * ws.len(), |j: int| spec_u32_to_le_bytes(ws[j / 4])[j % 4])
}

/// The words of `bs`: each run of four bytes read little-endian, in order.
/// Bytes after the last whole word are not read.
pub open spec fn bytes_to_words(bs: Seq<u8>) -> Seq<u32> {
    Seq::new(bs.len() / 4, |i: int| spec_u32_from_le_bytes(bs.subrange(4 * i, 4 * i + 4)))
}

/// The four bytes of word `i` of `ws` are exactly that word's encoding.
proof fn lemma_word_bytes(ws: Seq<u32>, i: int)
    requires
        0 <= i < ws.len(),
    ensures
        words_to_bytes(ws).subrange(4 * i, 4 * i + 4) == spec_u32_to_le_bytes(ws[i]),
{
    lemma_auto_spec_u32_to_from_le_bytes();
    let s = words_to_bytes(ws).subrange(4 * i, 4 * i + 4);
    assert forall|k: int| 0 <= k < 4 implies #[trigger] s[k] == spec_u32_to_le_bytes(ws[i])[k] by {
        assert((4 * i + k) / 4 == i);
        assert((4 * i + k) % 4 == k);
    }
    assert(s =~= spec_u32_to_le_bytes(ws[i]));
}

/// Reading back the bytes of a word sequence gives the same words, in the same
/// order.
pub proof fn lemma_words_round_trip(ws: Seq<u32>)
    ensures
        words_to_bytes(ws).len() == 4 * ws.len(),
        bytes_to_words(words_to_bytes(ws)) == ws,
{
    lemma_auto_spec_u32_to_from_le_bytes();
    let bs = words_to_bytes(ws);
    assert(bs.len() / 4 == ws.len());
    assert forall|i: int| 0 <= i < ws.len() implies #[trigger] bytes_to_words(bs)[i] == ws[i] by {
        lemma_word_bytes(ws, i);
        assert(spec_u32_to_le_bytes(ws[i]).len() == 4);
    }
    assert(bytes_to_words(bs) =~= ws);
}

/// The storage-buffer bytes of `words`.
pub fn encode_words(words: &[u32]) -> (r: Vec<u8>)
    requires
        4 * words@.len() <= usize::MAX,
    ensures
        r@ == words_to_bytes(words@),
{
    proof {
        lemma_auto_spec_u32_to_from_le_bytes();
    }
    let n = words.len();
    let mut out: Vec<u8> = Vec::with_capacity(4 * n);
    let mut i: usize = 0;
    while i < n
        invariant
            n == words@.len(),
            4 * n <= usize::MAX,
            0 <= i <= n,
            out@.len() == 4 * i,
            forall|j: int| 0 <= j < 4 * i ==> #[trigger] out@[j] == spec_u32_to_le_bytes(words@[j / 4])[j % 4],
        decreases n - i,
    {
        let b = u32_to_le_bytes(words[i]);
        let ghost before = out@;
        out.push(b[0]);
        out.push(b[1]);
        out.push(b[2]);
        out.push(b[3]);
        assert forall|j: int| 0 <= j < 4 * (i + 1) implies #[trigger] out@[j] == spec_u32_to_le_bytes(
            words@[j / 4],
        )[j % 4] by {
            if j >= 4 * i {
                assert(j / 4 == i);
                assert(out@[j] == b@[j - 4 * i]);
                assert(j % 4 == j - 4 * i);
            } else {
                assert(out@[j] == before[j]);
            }
        }
        i = i + 1;
    }
    assert(out@ =~= words_to_bytes(words@));
    out
}

/// The words held in `bytes`, read four bytes at a time.
pub fn decode_words(bytes: &[u8]) -> (r: Vec<u32>)
    ensures
        r@ == bytes_to_words(bytes@),
{
    let len = bytes.len();
    let n = len / 4;
    let mut out: Vec<u32> = Vec::with_capacity(n);
    let mut i: usize = 0;
    while i < n
        invariant
            n == bytes@.len() / 4,
            len == bytes@.len(),
            4 * n <= len,
            0 <= i <= n,
            out@.len() == i,
            forall|k: int| 0 <= k < i ==> #[trigger] out@[k] == bytes_to_words(bytes@)[k],
        decreases n - i,
    {
        let chunk = slice_subrange(bytes, 4 * i, 4 * i + 4);
        out.push(u32_from_le_bytes(chunk));
        i = i + 1;
    }
    assert(out@ =~= bytes_to_words(bytes@));
    out
}

} // verus!
