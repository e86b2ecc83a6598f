//! Legacy text renderings of keys, hashes, and signatures.
//!
//! Inside an encoded envelope, the author, the previous-entry reference, and
//! the signature appear as tagged strings: a sigil or suffix identifying the
//! algorithm around the standard base64 of the raw bytes. The renderings are
//! specified here exactly; the outside multiformats library produces them.

use vstd::prelude::*;

verus! {

/// The character encoding a six-bit value in the standard base64 alphabet:
/// `A`–`Z`, `a`–`z`, `0`–`9`, `+`, `/`.
pub open spec fn base64_char(i: u8) -> char {
    if i < 26 {
        ((i + 65) as u8) as char
    } else if i < 52 {
        ((i + 71) as u8) as char
    } else if i < 62 {
        ((i - 4) as u8) as char
    } else if i == 62 {
        '+'
    } else {
        '/'
    }
}

/// Standard base64 with `=` padding, as mathematical text: each group of
/// three bytes becomes four characters of six bits each, and a short final
/// group is padded.
pub open spec fn base64_of(s: Seq<u8>) -> Seq<char>
    decreases s.len(),
{
    if s.len() == 0 {
        Seq::empty()
    } else if s.len() == 1 {
        seq![base64_char(s[0] >> 2), base64_char((s[0] & 3) << 4), '=', '=']
    } else if s.len() == 2 {
        seq![
            base64_char(s[0] >> 2),
            base64_char(((s[0] & 3) << 4) | (s[1] >> 4)),
            base64_char((s[1] & 15) << 2),
            '=',
        ]
    } else {
        seq![
            base64_char(s[0] >> 2),
            base64_char(((s[0] & 3) << 4) | (s[1] >> 4)),
            base64_char(((s[1] & 15) << 2) | (s[2] >> 6)),
            base64_char(s[2] & 63),
        ] + base64_of(s.skip(3))
    }
}

fn base64_char_of(i: u8) -> (c: char)
    ensures
        c == base64_char(i),
{
    if i < 26 {
        (i + 65) as char
    } else if i < 52 {
        (i + 71) as char
    } else if i < 62 {
        (i - 4) as char
    } else if i == 62 {
        '+'
    } else {
        '/'
    }
}

/// Standard base64 with `=` padding, computed in verified code: the result is
/// exactly the rendering the identifier specifications below are written
/// over, so it can be held against the outside library's output.
pub fn base64_chars(bytes: &[u8]) -> (r: Vec<char>)
    ensures
        r@ == base64_of(bytes@),
{
    let ghost s = bytes@;
    let mut out: Vec<char> = Vec::new();
    let mut i: usize = 0;
    proof {
        assert(s.skip(0) =~= s);
        assert(out@ + base64_of(s.skip(0)) =~= base64_of(s));
    }
    while bytes.len() - i >= 3
        invariant
            i <= bytes@.len(),
            s == bytes@,
            out@ + base64_of(s.skip(i as int)) == base64_of(s),
        decreases bytes@.len() - i,
    {
        let ghost out0 = out@;
        let ghost t = s.skip(i as int);
        let b0 = bytes[i];
        let b1 = bytes[i + 1];
        let b2 = bytes[i + 2];
        out.push(base64_char_of(b0 >> 2));
        out.push(base64_char_of(((b0 & 3) << 4) | (b1 >> 4)));
        out.push(base64_char_of(((b1 & 15) << 2) | (b2 >> 6)));
        out.push(base64_char_of(b2 & 63));
        proof {
            assert(t[0] == b0 && t[1] == b1 && t[2] == b2);
            assert(t.skip(3) =~= s.skip(i + 3 as int));
            assert(out@ =~= out0 + seq![
                base64_char(t[0] >> 2),
                base64_char(((t[0] & 3) << 4) | (t[1] >> 4)),
                base64_char(((t[1] & 15) << 2) | (t[2] >> 6)),
                base64_char(t[2] & 63),
            ]);
            assert(out@ + base64_of(s.skip(i + 3 as int)) =~= out0 + base64_of(t));
        }
        i = i + 3;
    }
    let ghost t = s.skip(i as int);
    if bytes.len() - i == 1 {
        let b0 = bytes[i];
        out.push(base64_char_of(b0 >> 2));
        out.push(base64_char_of((b0 & 3) << 4));
        out.push('=');
        out.push('=');
        proof {
            assert(t[0] == b0);
            assert(out@ =~= base64_of(s));
        }
    } else if bytes.len() - i == 2 {
        let b0 = bytes[i];
        let b1 = bytes[i + 1];
        out.push(base64_char_of(b0 >> 2));
        out.push(base64_char_of(((b0 & 3) << 4) | (b1 >> 4)));
        out.push(base64_char_of((b1 & 15) << 2));
        out.push('=');
        proof {
            assert(t[0] == b0 && t[1] == b1);
            assert(out@ =~= base64_of(s));
        }
    } else {
        proof {
            assert(t =~= Seq::<u8>::empty());
            assert(out@ =~= base64_of(s));
        }
    }
    out
}

/// The legacy rendering of an ed25519 public key: `@`, the base64 of the key
/// bytes, and the `.ed25519` suffix.
pub open spec fn multikey_string(pk: Seq<u8>) -> Seq<char> {
    seq!['@'] + base64_of(pk) + ".ed25519"@
}

/// The legacy rendering of a message's content identifier: `%`, the base64 of
/// the sha256 digest, and the `.sha256` suffix.
pub open spec fn multihash_string(digest: Seq<u8>) -> Seq<char> {
    seq!['%'] + base64_of(digest) + ".sha256"@
}

/// The legacy rendering of an ed25519 signature: the base64 of the signature
/// bytes and the `.sig.ed25519` suffix.
pub open spec fn multisig_string(sig: Seq<u8>) -> Seq<char> {
    base64_of(sig) + ".sig.ed25519"@
}

/// Whether the text parses as a legacy content-identifier reference. The
/// outside multiformats library decides this; renderings that this crate
/// produces always satisfy it.
pub uninterp spec fn multihash_parses(s: Seq<char>) -> bool;

/// Relies on `ssb_multiformats::multikey::Multikey::{from_ed25519,
/// to_legacy_string}`: the legacy rendering of an ed25519 public key is `@`,
/// the standard base64 of the 32 key bytes, and `.ed25519`.
#[verifier::external_body]
pub(crate) fn multikey_legacy_string(pk: &[u8]) -> (r: String)
    requires
        pk@.len() == 32,
    ensures
        r@ == multikey_string(pk@),
{
    let mut arr = [0u8; 32];
    arr.copy_from_slice(pk);
    ssb_multiformats::multikey::Multikey::from_ed25519(&arr).to_legacy_string()
}

/// Relies on `ssb_multiformats::multihash::Multihash::to_legacy_string` and
/// `Multihash::from_legacy`: a message identifier renders as `%`, the standard
/// base64 of the 32 digest bytes, and `.sha256`, and such a rendering parses
/// back as a content-identifier reference.
#[verifier::external_body]
pub(crate) fn multihash_legacy_string(digest: &[u8]) -> (r: String)
    requires
        digest@.len() == 32,
    ensures
        r@ == multihash_string(digest@),
        multihash_parses(r@),
{
    let mut arr = [0u8; 32];
    arr.copy_from_slice(digest);
    ssb_multiformats::multihash::Multihash::Message(arr).to_legacy_string()
}

/// Relies on `ssb_multiformats::multikey::Multisig::{from_ed25519,
/// to_legacy_string}`: an ed25519 signature renders as the standard base64 of
/// the 64 signature bytes followed by `.sig.ed25519`.
#[verifier::external_body]
pub(crate) fn multisig_legacy_string(sig: &[u8]) -> (r: String)
    requires
        sig@.len() == 64,
    ensures
        r@ == multisig_string(sig@),
{
    let mut arr = [0u8; 64];
    arr.copy_from_slice(sig);
    ssb_multiformats::multikey::Multisig::from_ed25519(&arr).to_legacy_string()
}

} // verus!
