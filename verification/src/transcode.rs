//! The legacy byte transcoding applied to a message's canonical text before
//! hashing it.
//!
//! The content identifier of an entry is not the digest of the canonical
//! text's UTF-8 bytes. Historic consumers built the hashed buffer from the
//! text's UTF-16 code units, keeping only the low eight bits of each unit.
//! That silently truncates characters outside Latin-1, and the loss is part
//! of the wire format: it must be reproduced exactly, not repaired.

use vstd::prelude::*;

verus! {

/// The bytes that one character contributes to the hashed buffer: the low
/// eight bits of each of the character's UTF-16 code units, in order.
pub open spec fn low_utf16_bytes_of_char(c: char) -> Seq<u8> {
    let v = (c as u32) as int;
    if v < 0x10000 {
        seq![(v % 256) as u8]
    } else {
        seq![
            ((0xD800 + ((v - 0x10000) / 0x400)) % 256) as u8,
            ((0xDC00 + ((v - 0x10000) % 0x400)) % 256) as u8,
        ]
    }
}

/// The whole transcoding: each character's low UTF-16 bytes, concatenated in
/// text order.
pub open spec fn low_utf16_bytes(s: Seq<char>) -> Seq<u8>
    decreases s.len(),
{
    if s.len() == 0 {
        Seq::empty()
    } else {
        low_utf16_bytes_of_char(s[0]) + low_utf16_bytes(s.drop_first())
    }
}

proof fn lemma_low_utf16_bytes_push(s: Seq<char>, c: char)
    ensures
        low_utf16_bytes(s.push(c)) == low_utf16_bytes(s) + low_utf16_bytes_of_char(c),
    decreases s.len(),
{
    if s.len() == 0 {
        assert(s.push(c)[0] == c);
        assert(s.push(c).drop_first() =~= Seq::<char>::empty());
        assert(low_utf16_bytes(s.push(c)) == low_utf16_bytes_of_char(c) + low_utf16_bytes(
            s.push(c).drop_first(),
        ));
        assert(low_utf16_bytes(s.push(c)) =~= low_utf16_bytes(s) + low_utf16_bytes_of_char(c));
    } else {
        assert(s.push(c).drop_first() =~= s.drop_first().push(c));
        lemma_low_utf16_bytes_push(s.drop_first(), c);
        assert(low_utf16_bytes(s.push(c)) =~= low_utf16_bytes(s) + low_utf16_bytes_of_char(c));
    }
}

/// Build the byte buffer that the legacy format hashes: the text is read as
/// UTF-16 code units and each unit contributes its low eight bits.
///
/// This reproduces the byte buffer that historic consumers derive from the
/// canonical text, so the digest computed over the result is the one the rest
/// of the ecosystem expects.
pub fn node_buffer_binary_serializer(text: &str) -> (bytes: Vec<u8>)
    ensures
        bytes@ == low_utf16_bytes(text@),
{
    let n = text.unicode_len();
    let mut bytes: Vec<u8> = Vec::new();
    let mut i: usize = 0;
    while i < n
        invariant
            i <= n,
            n == text@.len(),
            bytes@ == low_utf16_bytes(text@.take(i as int)),
        decreases n - i,
    {
        let c = text.get_char(i);
        proof {
            assert(text@.take(i as int).push(c) =~= text@.take(i + 1 as int));
            lemma_low_utf16_bytes_push(text@.take(i as int), c);
        }
        let v = c as u32;
        if v < 0x10000 {
            bytes.push((v % 256) as u8);
        } else {
            let off = v - 0x10000;
            bytes.push(((0xD800 + off / 0x400) % 256) as u8);
            bytes.push(((0xDC00 + off % 0x400) % 256) as u8);
        }
        i = i + 1;
    }
    proof {
        assert(text@.take(n as int) =~= text@);
    }
    bytes
}

} // verus!
