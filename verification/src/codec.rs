//! The canonical codec boundary.
//!
//! The legacy JSON grammar itself (key ordering of the wrapper object,
//! indentation, number and string formatting, escaping) belongs to the outside
//! codec crate and is consumed, not reimplemented. This module owns the two
//! decisions that are this crate's to make: what an envelope contains, in
//! which order, and with or without its signature; and what the minimal
//! projection of a previous entry is. Everything the rest of the crate proves
//! about encoded bytes goes through the named functions below.

use ssb_legacy_msg_data::json::{from_slice, to_vec};
use ssb_legacy_msg_data::value::{ContentValue, RidiculousStringMap, Value};
use ssb_legacy_msg_data::LegacyF64;
use vstd::prelude::*;

use crate::decimal::dec_digits;
use crate::multiformat::{multihash_parses, multihash_string};

verus! {

/// The largest sequence number an envelope may carry. Sequence numbers travel
/// as canonical JSON numbers, which are read as 64-bit floats; integers above
/// 2^53 are not exactly representable there, so a feed whose previous entry
/// has reached this bound admits no further entry.
pub const MAX_SEQUENCE: u64 = 0x20000000000000;

/// The minimal projection of an encoded `{key, value}` entry: its content
/// identifier, its author, and its sequence number, each as plain values.
pub struct MsgFields {
    /// The legacy rendering of the entry's content identifier.
    pub key: Seq<char>,
    /// The legacy rendering of the entry's author key.
    pub author: Seq<char>,
    /// The entry's sequence number.
    pub sequence: u64,
}

/// What the codec decodes from the bytes of a `{key, value}` entry: `None`
/// when the bytes are not a well-formed entry under the legacy grammar, the
/// minimal projection otherwise.
pub uninterp spec fn envelope_fields(bytes: Seq<u8>) -> Option<MsgFields>;

/// What the codec decodes from the bytes of a bare (unwrapped) signed
/// envelope: `None` when the bytes are not a well-formed signed envelope,
/// else the author rendering and the sequence number.
pub uninterp spec fn value_fields(bytes: Seq<u8>) -> Option<(Seq<char>, u64)>;

/// Whether the bytes parse as some legacy value under the canonical grammar.
pub uninterp spec fn legacy_value_parses(bytes: Seq<u8>) -> bool;

/// Whether the bytes parse as admissible message content: a string, or an
/// object carrying a well-formed `type` entry.
pub uninterp spec fn content_value_parses(bytes: Seq<u8>) -> bool;

/// Whether the bytes parse as a single legacy number (a finite 64-bit float,
/// neither `NaN` nor negative zero).
pub uninterp spec fn legacy_number_parses(bytes: Seq<u8>) -> bool;

/// The canonical signing encoding of an envelope built from the given field
/// values: author and optional previous reference as tagged strings, the
/// sequence number, the timestamp and content as re-encodings of the given
/// canonical bytes, and optionally the signature string. A pure function of
/// the fields, which is what makes publishing deterministic.
pub uninterp spec fn envelope_encoding(
    author: Seq<char>,
    previous: Option<Seq<char>>,
    sequence: u64,
    timestamp: Seq<u8>,
    content: Seq<u8>,
    signature: Option<Seq<char>>,
) -> Seq<u8>;

/// The canonical encoding of the outward `{key, value}` wrapper around a
/// signed envelope. A pure function of the key text and the envelope bytes.
pub uninterp spec fn keyed_encoding(key: Seq<char>, value: Seq<u8>) -> Seq<u8>;

/// The view of an optional string.
pub open spec fn opt_str_view(o: Option<String>) -> Option<Seq<char>> {
    match o {
        Some(s) => Some(s@),
        None => None,
    }
}

/// The minimal projection of a decoded previous entry, as plain values.
pub struct PreviousMessage {
    /// The legacy rendering of the previous entry's content identifier.
    pub key: String,
    /// The legacy rendering of the previous entry's author key.
    pub author: String,
    /// The previous entry's sequence number.
    pub sequence: u64,
}

/// Relies on `ssb_legacy_msg_data::json::from_slice` decoding
/// `ssb_validate::message::SsbMessage` (the public `{key, value}` shape of an
/// encoded entry, whose `value` carries `previous`, `author`, `sequence`,
/// `timestamp`, `hash`, `content` and `signature`), and on
/// `Multihash::to_legacy_string`: a decoded identifier's rendering parses
/// back as an identifier reference.
#[verifier::external_body]
pub(crate) fn decode_previous(bytes: &[u8]) -> (r: Option<PreviousMessage>)
    ensures
        r is Some <==> envelope_fields(bytes@) is Some,
        r matches Some(p) ==> envelope_fields(bytes@) == Some(
            MsgFields { key: p.key@, author: p.author@, sequence: p.sequence },
        ),
        r matches Some(p) ==> multihash_parses(p.key@),
{
    let m = ssb_legacy_msg_data::json::from_slice::<ssb_validate::message::SsbMessage>(bytes)
        .ok()?;
    Some(PreviousMessage {
        key: m.key.to_legacy_string(),
        author: m.value.author,
        sequence: m.value.sequence,
    })
}

/// Relies on `ssb_legacy_msg_data::json::from_slice` decoding a
/// `ssb_legacy_msg_data::value::ContentValue`: content is admissible exactly
/// when its bytes parse as a legacy string or as an object with a well-formed
/// `type` entry.
#[verifier::external_body]
pub(crate) fn content_admissible(bytes: &[u8]) -> (r: bool)
    ensures
        r == content_value_parses(bytes@),
{
    ssb_legacy_msg_data::json::from_slice::<ssb_legacy_msg_data::value::ContentValue>(bytes)
        .is_ok()
}

/// Relies on `ssb_legacy_msg_data`: `json::from_slice` to read the sequence,
/// timestamp and content values from their canonical bytes,
/// `value::{Value, RidiculousStringMap}` to assemble the envelope in the
/// legacy field order (`previous`, `author`, `sequence`, `timestamp`, `hash`,
/// `content`, then `signature` when present, with `hash` fixed to `"sha256"`),
/// and `json::to_vec` in signing (non-compact) mode to encode it. The
/// encoding is a pure function of the field values; it is valid UTF-8, it
/// re-parses under the grammar, and when it carries a signature and a
/// parseable previous reference it decodes as a signed envelope with exactly
/// the author and sequence it was built from.
#[verifier::external_body]
pub(crate) fn encode_envelope(
    author: String,
    previous: Option<String>,
    sequence: u64,
    seq_digits: &[u8],
    timestamp: &[u8],
    content: &[u8],
    signature: Option<String>,
) -> (r: Option<Vec<u8>>)
    requires
        1 <= sequence <= MAX_SEQUENCE,
        seq_digits@ == dec_digits(sequence as nat),
        content_value_parses(content@),
    ensures
        r is Some <==> legacy_number_parses(timestamp@),
        r matches Some(v) ==> v@ == envelope_encoding(
            author@,
            opt_str_view(previous),
            sequence,
            timestamp@,
            content@,
            opt_str_view(signature),
        ),
        r matches Some(v) ==> vstd::utf8::valid_utf8(v@),
        r matches Some(v) ==> legacy_value_parses(v@),
        r matches Some(v) ==> ((signature is Some && (previous matches Some(p)
            ==> multihash_parses(p@))) ==> value_fields(v@) == Some((author@, sequence))),
{
    let mut m = RidiculousStringMap::with_capacity(7);
    let fields = [
        ("previous", match previous { Some(p) => Value::String(p), None => Value::Null }),
        ("author", Value::String(author)),
        ("sequence", Value::Float(from_slice(seq_digits).unwrap())),
        ("timestamp", Value::Float(from_slice(timestamp).ok()?)),
        ("hash", Value::String("sha256".into())),
        ("content", from_slice::<ContentValue>(content).unwrap().0),
    ];
    for (k, v) in fields { m.insert(k.into(), v); }
    if let Some(s) = signature { m.insert("signature".into(), Value::String(s)); }
    Some(to_vec(&Value::Object(m), false).unwrap())
}

/// Relies on `ssb_legacy_msg_data`: `json::from_slice` to re-read the signed
/// envelope, `value::{Value, RidiculousStringMap}` to wrap it as
/// `{key, value}`, and `json::to_vec` to encode the wrapper. The result is a
/// pure function of the key text and the envelope bytes, and when the key is
/// an identifier rendering and the envelope decodes as a signed envelope, the
/// wrapper decodes as an entry with exactly that key and those fields.
#[verifier::external_body]
pub(crate) fn encode_keyed(key: &String, value: &[u8]) -> (r: Vec<u8>)
    requires
        legacy_value_parses(value@),
    ensures
        r@ == keyed_encoding(key@, value@),
        (exists|d: Seq<u8>| d.len() == 32 && key@ == multihash_string(d)) ==> (value_fields(
            value@,
        ) matches Some(f) ==> envelope_fields(r@) == Some(
            MsgFields { key: key@, author: f.0, sequence: f.1 },
        )),
{
    let v: Value = from_slice(value).unwrap();
    let mut m = RidiculousStringMap::with_capacity(2);
    m.insert("key".to_owned(), Value::String(key.clone()));
    m.insert("value".to_owned(), v);
    to_vec(&Value::Object(m), false).unwrap()
}

/// Relies on `core::str::from_utf8`: yields the text whose UTF-8 encoding is
/// exactly the given bytes, when they are valid UTF-8.
#[verifier::external_body]
pub(crate) fn str_of_utf8(bytes: &[u8]) -> (r: Option<&str>)
    ensures
        r is Some <==> vstd::utf8::valid_utf8(bytes@),
        r matches Some(s) ==> s@ == vstd::utf8::decode_utf8(bytes@),
{
    core::str::from_utf8(bytes).ok()
}

} // verus!
