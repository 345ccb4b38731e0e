//! Little-endian byte layout of 32-bit words, as the GPU buffers read them.
//!
//! Every value the renderer uploads (vertex coordinates, the light-simulation
//! parameters, the boolean ping-pong flag) is a 32-bit word; a buffer is the
//! concatenation of those words, four bytes each, lowest byte first.
use vstd::prelude::*;

verus! {

/// The four bytes of `x`, lowest first.
pub open spec fn u32_le_bytes(x: u32) -> Seq<u8> {
    seq![
        (x % 256) as u8,
        ((x / 256) % 256) as u8,
        ((x / 65536) % 256) as u8,
        (x / 16777216) as u8,
    ]
}

/// The word whose little-endian bytes start at `b[4 * i]`.
pub open spec fn le_word_at(b: Seq<u8>, i: int) -> int {
    b[4 * i] + 256 * b[4 * i + 1] + 65536 * b[4 * i + 2] + 16777216 * b[4 * i + 3]
}

/// The bytes of a sequence of words: each word's four bytes, in order.
pub open spec fn words_le_bytes(ws: Seq<u32>) -> Seq<u8>
    decreases ws.len(),
{
    if ws.len() == 0 {
        Seq::empty()
    } else {
        words_le_bytes(ws.drop_last()) + u32_le_bytes(ws.last())
    }
}

/// Decoding the four bytes of a word gives the word back.
pub proof fn lemma_u32_le_roundtrip(x: u32)
    ensures
        le_word_at(u32_le_bytes(x), 0) == x,
{
    let b0 = x % 256;
    let b1 = (x / 256) % 256;
    let b2 = (x / 65536) % 256;
    let b3 = x / 16777216;
    assert(b0 + 256 * b1 + 65536 * b2 + 16777216 * b3 == x) by (bit_vector)
        requires
            b0 == x % 256,
            b1 == (x / 256) % 256,
            b2 == (x / 65536) % 256,
            b3 == x / 16777216,
    ;
    assert(b3 < 256) by (bit_vector)
        requires
            b3 == x / 16777216,
    ;
}

/// The bytes of `ws` are four per word, and bytes `4 * i .. 4 * i + 4` are those of `ws[i]`.
pub proof fn lemma_words_le_bytes_layout(ws: Seq<u32>)
    ensures
        words_le_bytes(ws).len() == 4 * ws.len(),
        forall|i: int|
            0 <= i < ws.len() ==> #[trigger] words_le_bytes(ws).subrange(4 * i, 4 * i + 4)
                == u32_le_bytes(ws[i]),
    decreases ws.len(),
{
    if ws.len() > 0 {
        let init = ws.drop_last();
        lemma_words_le_bytes_layout(init);
        let b = words_le_bytes(ws);
        assert(b == words_le_bytes(init) + u32_le_bytes(ws.last()));
        assert forall|i: int| 0 <= i < ws.len() implies #[trigger] b.subrange(4 * i, 4 * i + 4)
            == u32_le_bytes(ws[i]) by {
            if i < init.len() {
                assert(b.subrange(4 * i, 4 * i + 4) =~= words_le_bytes(init).subrange(
                    4 * i,
                    4 * i + 4,
                ));
                assert(init[i] == ws[i]);
            } else {
                assert(b.subrange(4 * i, 4 * i + 4) =~= u32_le_bytes(ws.last()));
            }
        }
    }
}

/// Word `i` read back from the bytes of `ws` is `ws[i]`: the layout loses nothing.
pub proof fn lemma_words_le_bytes_decode(ws: Seq<u32>, i: int)
    requires
        0 <= i < ws.len(),
    ensures
        le_word_at(words_le_bytes(ws), i) == ws[i],
{
    lemma_words_le_bytes_layout(ws);
    let b = words_le_bytes(ws);
    let part = b.subrange(4 * i, 4 * i + 4);
    assert(part == u32_le_bytes(ws[i]));
    lemma_u32_le_roundtrip(ws[i]);
    assert(le_word_at(b, i) == le_word_at(part, 0)) by {
        assert(part[0] == b[4 * i]);
        assert(part[1] == b[4 * i + 1]);
        assert(part[2] == b[4 * i + 2]);
        assert(part[3] == b[4 * i + 3]);
    }
}

/// Two word sequences with the same bytes are the same sequence.
pub proof fn lemma_words_le_bytes_injective(a: Seq<u32>, b: Seq<u32>)
    requires
        words_le_bytes(a) == words_le_bytes(b),
    ensures
        a == b,
{
    lemma_words_le_bytes_layout(a);
    lemma_words_le_bytes_layout(b);
    assert forall|i: int| 0 <= i < a.len() implies a[i] == b[i] by {
        lemma_words_le_bytes_decode(a, i);
        lemma_words_le_bytes_decode(b, i);
    }
    assert(a =~= b);
}

/// Appends the four little-endian bytes of `x` to `out`.
pub fn push_u32_le(out: &mut Vec<u8>, x: u32)
    ensures
        final(out)@ == old(out)@ + u32_le_bytes(x),
{
    let b0 = (x & 0xff) as u8;
    let b1 = ((x >> 8) & 0xff) as u8;
    let b2 = ((x >> 16) & 0xff) as u8;
    let b3 = (x >> 24) as u8;
    assert(x & 0xff == x % 256 && (x >> 8) & 0xff == (x / 256) % 256 && (x >> 16) & 0xff == (x
        / 65536) % 256 && x >> 24 == x / 16777216) by (bit_vector);
    out.push(b0);
    out.push(b1);
    out.push(b2);
    out.push(b3);
    assert(out@ =~= old(out)@ + u32_le_bytes(x));
}

/// Appends the bytes of every word of `ws`, in order, to `out`.
pub fn push_words_le(out: &mut Vec<u8>, ws: &[u32])
    ensures
        final(out)@ == old(out)@ + words_le_bytes(ws@),
{
    let ghost start = out@;
    let mut i: usize = 0;
    while i < ws.len()
        invariant
            0 <= i <= ws@.len(),
            out@ == start + words_le_bytes(ws@.subrange(0, i as int)),
        decreases ws@.len() - i,
    {
        push_u32_le(out, ws[i]);
        proof {
            let next = ws@.subrange(0, i + 1);
            assert(next.drop_last() =~= ws@.subrange(0, i as int));
            assert(next.last() == ws@[i as int]);
            assert(out@ =~= start + words_le_bytes(next));
        }
        i = i + 1;
    }
    assert(ws@.subrange(0, ws@.len() as int) =~= ws@);
}

} // verus!
