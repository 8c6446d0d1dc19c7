//! The letter-shift cipher: each lowercase letter moves one step forward
//! in the alphabet, wrapping `z` back to `a`.

use vstd::prelude::*;

verus! {

/// A lowercase ASCII letter, as a byte.
pub open spec fn is_lower(c: u8) -> bool {
    0x61 <= c <= 0x7a
}

/// A word of the drill: every byte a lowercase ASCII letter.
pub open spec fn is_lower_word(w: Seq<u8>) -> bool {
    forall|i: int| 0 <= i < w.len() ==> is_lower(#[trigger] w[i])
}

/// One letter moved one step forward in the alphabet, modulo 26.
pub open spec fn encode_byte_spec(c: u8) -> u8
    recommends
        is_lower(c),
{
    (((c - 0x61 + 1) % 26) + 0x61) as u8
}

/// One letter moved one step backward in the alphabet, modulo 26.
pub open spec fn decode_byte_spec(c: u8) -> u8
    recommends
        is_lower(c),
{
    (((c - 0x61 + 25) % 26) + 0x61) as u8
}

/// The cipher of a whole word, letter by letter.
pub open spec fn encode_spec(w: Seq<u8>) -> Seq<u8> {
    w.map_values(|c: u8| encode_byte_spec(c))
}

/// The inverse of the cipher, letter by letter.
pub open spec fn decode_spec(w: Seq<u8>) -> Seq<u8> {
    w.map_values(|c: u8| decode_byte_spec(c))
}

/// Shifting forward and then backward gives the letter back.
pub proof fn lemma_decode_encode_byte(c: u8)
    requires
        is_lower(c),
    ensures
        decode_byte_spec(encode_byte_spec(c)) == c,
{
}

/// Round trip on whole words: decoding an encoded lowercase word gives
/// the word back.
pub proof fn lemma_decode_encode(w: Seq<u8>)
    requires
        is_lower_word(w),
    ensures
        decode_spec(encode_spec(w)) == w,
{
    assert(decode_spec(encode_spec(w)) =~= w) by {
        assert forall|i: int| 0 <= i < w.len() implies decode_spec(encode_spec(w))[i] == w[i] by {
            lemma_decode_encode_byte(w[i]);
        }
    }
}

/// One letter of the cipher, executable.
pub fn encode_byte(c: u8) -> (r: u8)
    requires
        is_lower(c),
    ensures
        r == encode_byte_spec(c),
        is_lower(r),
{
    if c >= 0x7a {
        0x61
    } else {
        c + 1
    }
}

/// The cipher answer for a question word: the same length, each letter
/// shifted one step forward with wraparound.
pub fn encode(w: &[u8]) -> (r: Vec<u8>)
    requires
        is_lower_word(w@),
    ensures
        r@ == encode_spec(w@),
        is_lower_word(r@),
{
    let mut out: Vec<u8> = Vec::new();
    let mut i: usize = 0;
    while i < w.len()
        invariant
            i <= w@.len(),
            is_lower_word(w@),
            out@ =~= encode_spec(w@).take(i as int),
        decreases w@.len() - i,
    {
        let c = w[i];
        out.push(encode_byte(c));
        i = i + 1;
    }
    assert(encode_spec(w@).take(w@.len() as int) =~= encode_spec(w@));
    assert(is_lower_word(encode_spec(w@)));
    out
}

} // verus!
