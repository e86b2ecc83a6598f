//! Assembling, signing, and finalizing a new feed entry.

use vstd::prelude::*;
use vstd::slice::slice_to_vec;

use crate::codec::{
    content_admissible, content_value_parses, decode_previous, encode_envelope, encode_keyed,
    envelope_encoding, envelope_fields, keyed_encoding, legacy_number_parses, str_of_utf8,
    MsgFields, MAX_SEQUENCE,
};
use crate::crypto::{ed25519_public_of, ed25519_signature, sha256_digest, sha256_of, sign_detached};
use crate::decimal::u64_dec_digits;
use crate::multiformat::{
    multihash_legacy_string, multihash_string, multikey_legacy_string, multikey_string,
    multisig_legacy_string, multisig_string,
};
use crate::transcode::{low_utf16_bytes, node_buffer_binary_serializer};

verus! {

/// Why a publish call was refused. Every failure is synchronous and caller
/// repairable; no partial output is ever returned.
#[derive(Debug)]
pub enum Error {
    /// The previous entry's bytes do not decode as a feed entry. Carries the
    /// offending bytes.
    InvalidPreviousMessage { message: Vec<u8> },
    /// The public key is not 32 bytes of raw ed25519 key material.
    InvalidPublicKey {},
    /// The secret key is not 64 bytes of raw ed25519 keypair material, or its
    /// stored public half is not the one its secret half derives.
    InvalidSecretKey {},
    /// The previous entry was written by a different author than the supplied
    /// public key; appending would splice feeds.
    PreviousMessageAuthorIsIncorrect {},
    /// The assembled envelope cannot be encoded under the canonical grammar:
    /// the content or the timestamp is unencodable, or the previous entry's
    /// sequence number admits no exactly representable successor.
    LegacyJsonEncodeFailed {},
}

/// A finished entry: the signed envelope's canonical bytes, the same envelope
/// wrapped as `{key, value}`, and its content identifier.
///
/// Downstream consumers differ in which of the two byte shapes they expect,
/// so both are returned and the caller picks; nothing needs to be re-derived.
pub struct PublishedMessage {
    /// The canonical bytes of the signed envelope itself.
    pub value_bytes: Vec<u8>,
    /// The envelope wrapped as `{key, value}`, the shape feeds interchange.
    pub keyed_bytes: Vec<u8>,
    /// The entry's content identifier, as its legacy rendering.
    pub key: String,
}

/// The view of the optional previous-entry bytes.
pub open spec fn opt_bytes_view(o: Option<&[u8]>) -> Option<Seq<u8>> {
    match o {
        Some(b) => Some(b@),
        None => None,
    }
}

/// Whether the previous entry (when given) can be chained from: it decodes,
/// and it was written by the author the public key derives.
pub open spec fn previous_chainable(previous: Option<Seq<u8>>, pk: Seq<u8>) -> bool {
    previous matches Some(p) ==> (envelope_fields(p) matches Some(f) && f.author
        == multikey_string(pk))
}

/// Whether the previous entry's sequence number leaves room for a successor
/// that the canonical number encoding can carry exactly.
pub open spec fn previous_sequence_ok(previous: Option<Seq<u8>>) -> bool {
    previous matches Some(p) ==> (envelope_fields(p) matches Some(f) ==> f.sequence
        < MAX_SEQUENCE)
}

/// Whether 64-byte secret key material is internally consistent: its stored
/// public half is the one its secret half derives. Signing refuses anything
/// else.
pub open spec fn secret_key_consistent(sk: Seq<u8>) -> bool {
    sk.subrange(32, 64) == ed25519_public_of(sk.subrange(0, 32))
}

/// Whether a publish call succeeds: both keys are well formed and consistent,
/// the previous entry (when given) admits a successor, and the content and
/// timestamp are encodable.
pub open spec fn publishable(
    content: Seq<u8>,
    previous: Option<Seq<u8>>,
    pk: Seq<u8>,
    sk: Seq<u8>,
    ts: Seq<u8>,
) -> bool {
    &&& pk.len() == 32
    &&& sk.len() == 64
    &&& previous_chainable(previous, pk)
    &&& previous_sequence_ok(previous)
    &&& content_value_parses(content)
    &&& legacy_number_parses(ts)
    &&& secret_key_consistent(sk)
}

/// The sequence number of the new entry: 1 for the first entry of a feed,
/// the successor of the previous entry's sequence number otherwise.
pub open spec fn next_sequence(previous: Option<Seq<u8>>) -> u64 {
    match previous {
        None => 1,
        Some(p) => match envelope_fields(p) {
            Some(f) => (f.sequence + 1) as u64,
            None => 0,
        },
    }
}

/// The new entry's previous reference: absent for the first entry of a feed,
/// the previous entry's content identifier otherwise.
pub open spec fn previous_key(previous: Option<Seq<u8>>) -> Option<Seq<char>> {
    match previous {
        None => None,
        Some(p) => match envelope_fields(p) {
            Some(f) => Some(f.key),
            None => Some(Seq::empty()),
        },
    }
}

/// How the signable bytes are formed. Historic implementations disagree on
/// whether the text under signature has the signature field absent or present
/// as an all-zero signature. Only [`SigningStrategy::OmitSignatureField`]
/// matches the verifiers in use across the ecosystem; whether any deployment
/// needs the zeroed form is an open question to settle against the target
/// verifier before relying on it.
#[derive(Clone, Copy, Debug)]
pub enum SigningStrategy {
    /// The signature field is absent from the signable bytes.
    OmitSignatureField,
    /// The signature field is present in the signable bytes, carrying an
    /// all-zero signature.
    ZeroedSignatureField,
}

/// An all-zero ed25519 signature.
pub open spec fn zero_signature() -> Seq<u8> {
    Seq::new(64, |i: int| 0u8)
}

/// The canonical bytes the signature is computed over: the new envelope with
/// the signature field absent, or carrying a zeroed signature, as the
/// strategy says.
pub open spec fn signable_value_bytes(
    strategy: SigningStrategy,
    content: Seq<u8>,
    previous: Option<Seq<u8>>,
    pk: Seq<u8>,
    ts: Seq<u8>,
) -> Seq<u8> {
    envelope_encoding(
        multikey_string(pk),
        previous_key(previous),
        next_sequence(previous),
        ts,
        content,
        match strategy {
            SigningStrategy::OmitSignatureField => None,
            SigningStrategy::ZeroedSignatureField => Some(multisig_string(zero_signature())),
        },
    )
}

/// The canonical bytes of the finished signed envelope: the same envelope
/// with the signature over the signable bytes in place.
pub open spec fn signed_value_bytes(
    strategy: SigningStrategy,
    content: Seq<u8>,
    previous: Option<Seq<u8>>,
    pk: Seq<u8>,
    sk: Seq<u8>,
    ts: Seq<u8>,
) -> Seq<u8> {
    envelope_encoding(
        multikey_string(pk),
        previous_key(previous),
        next_sequence(previous),
        ts,
        content,
        Some(
            multisig_string(
                ed25519_signature(
                    signable_value_bytes(strategy, content, previous, pk, ts),
                    sk,
                ),
            ),
        ),
    )
}

/// The new entry's content identifier: the signed envelope's text is
/// transcoded to its low UTF-16 bytes, digested, and rendered as an
/// identifier.
pub open spec fn message_key_string(
    strategy: SigningStrategy,
    content: Seq<u8>,
    previous: Option<Seq<u8>>,
    pk: Seq<u8>,
    sk: Seq<u8>,
    ts: Seq<u8>,
) -> Seq<char> {
    multihash_string(
        sha256_of(
            low_utf16_bytes(
                vstd::utf8::decode_utf8(
                    signed_value_bytes(strategy, content, previous, pk, sk, ts),
                ),
            ),
        ),
    )
}

/// The outward `{key, value}` bytes of the new entry.
pub open spec fn keyed_message_bytes(
    strategy: SigningStrategy,
    content: Seq<u8>,
    previous: Option<Seq<u8>>,
    pk: Seq<u8>,
    sk: Seq<u8>,
    ts: Seq<u8>,
) -> Seq<u8> {
    keyed_encoding(
        message_key_string(strategy, content, previous, pk, sk, ts),
        signed_value_bytes(strategy, content, previous, pk, sk, ts),
    )
}

/// Which error a refused publish call returns, and on exactly which inputs.
/// The conditions are mutually exclusive and together cover every input that
/// is not publishable.
pub open spec fn expected_error(
    content: Seq<u8>,
    previous: Option<Seq<u8>>,
    pk: Seq<u8>,
    sk: Seq<u8>,
    ts: Seq<u8>,
    e: Error,
) -> bool {
    match e {
        Error::InvalidPublicKey {  } => pk.len() != 32,
        Error::InvalidSecretKey {  } => pk.len() == 32 && (sk.len() != 64 || (previous_chainable(
            previous,
            pk,
        ) && previous_sequence_ok(previous) && content_value_parses(content)
            && legacy_number_parses(ts) && !secret_key_consistent(sk))),
        Error::InvalidPreviousMessage { message } => pk.len() == 32 && sk.len() == 64 && (previous
            matches Some(p) && message@ == p && envelope_fields(p) is None),
        Error::PreviousMessageAuthorIsIncorrect {  } => pk.len() == 32 && sk.len() == 64 && (
        previous matches Some(p) && (envelope_fields(p) matches Some(f) && f.author
            != multikey_string(pk))),
        Error::LegacyJsonEncodeFailed {  } => pk.len() == 32 && sk.len() == 64
            && previous_chainable(previous, pk) && !(previous_sequence_ok(previous)
            && content_value_parses(content) && legacy_number_parses(ts)),
    }
}

/// Derive the content identifier of an encoded envelope: transcode its text
/// to the low UTF-16 bytes, digest those, and render the digest as an
/// identifier reference.
pub fn get_multihash_from_message_bytes(bytes: &[u8]) -> (r: String)
    requires
        vstd::utf8::valid_utf8(bytes@),
    ensures
        r@ == multihash_string(
            sha256_of(low_utf16_bytes(vstd::utf8::decode_utf8(bytes@))),
        ),
        sha256_of(low_utf16_bytes(vstd::utf8::decode_utf8(bytes@))).len() == 32,
{
    let text = str_of_utf8(bytes).unwrap();
    let hashable = node_buffer_binary_serializer(text);
    let digest = sha256_digest(hashable.as_slice());
    multihash_legacy_string(digest.as_slice())
}

fn clone_opt_string(o: &Option<String>) -> (r: Option<String>)
    ensures
        r == *o,
{
    match o {
        Some(s) => Some(s.clone()),
        None => None,
    }
}

/// The signature-field rendering of an all-zero signature, for the zeroed
/// signing strategy.
fn zero_multisig_string() -> (r: String)
    ensures
        r@ == multisig_string(zero_signature()),
{
    let mut zeros: Vec<u8> = Vec::new();
    let mut i: usize = 0;
    while i < 64
        invariant
            i <= 64,
            zeros@.len() == i as int,
            forall|j: int| 0 <= j < i ==> zeros@[j] == 0u8,
        decreases 64 - i,
    {
        zeros.push(0u8);
        i = i + 1;
    }
    proof {
        assert(zeros@ =~= zero_signature());
    }
    multisig_legacy_string(zeros.as_slice())
}

/// Publish a new entry under an explicit signing strategy and return it in
/// full: the signed envelope's bytes, the `{key, value}` wrapper, and the
/// content identifier.
///
/// The content and the timestamp are taken as their canonical encodings
/// (content a string or an object with a `type` entry; timestamp a single
/// number); the keys are raw ed25519 bytes, the public key 32 bytes and the
/// secret key the 64-byte keypair layout (secret half then public half).
pub fn publish_entry_with(
    content: &[u8],
    previous: Option<&[u8]>,
    public_key: &[u8],
    secret_key: &[u8],
    timestamp: &[u8],
    strategy: SigningStrategy,
) -> (r: Result<PublishedMessage, Error>)
    ensures
        r is Ok <==> publishable(
            content@,
            opt_bytes_view(previous),
            public_key@,
            secret_key@,
            timestamp@,
        ),
        r matches Err(e) ==> expected_error(
            content@,
            opt_bytes_view(previous),
            public_key@,
            secret_key@,
            timestamp@,
            e,
        ),
        r matches Ok(m) ==> {
            &&& m.value_bytes@ == signed_value_bytes(
                strategy,
                content@,
                opt_bytes_view(previous),
                public_key@,
                secret_key@,
                timestamp@,
            )
            &&& m.key@ == message_key_string(
                strategy,
                content@,
                opt_bytes_view(previous),
                public_key@,
                secret_key@,
                timestamp@,
            )
            &&& m.key@ == multihash_string(
                sha256_of(low_utf16_bytes(vstd::utf8::decode_utf8(m.value_bytes@))),
            )
            &&& vstd::utf8::valid_utf8(m.value_bytes@)
            &&& m.keyed_bytes@ == keyed_message_bytes(
                strategy,
                content@,
                opt_bytes_view(previous),
                public_key@,
                secret_key@,
                timestamp@,
            )
            &&& envelope_fields(m.keyed_bytes@) == Some(
                MsgFields {
                    key: m.key@,
                    author: multikey_string(public_key@),
                    sequence: next_sequence(opt_bytes_view(previous)),
                },
            )
        },
{
    if public_key.len() != 32 {
        return Err(Error::InvalidPublicKey {  });
    }
    if secret_key.len() != 64 {
        return Err(Error::InvalidSecretKey {  });
    }
    let author = multikey_legacy_string(public_key);
    let (sequence, prev_key): (u64, Option<String>) = match previous {
        None => (1, None),
        Some(p) => {
            match decode_previous(p) {
                None => {
                    return Err(Error::InvalidPreviousMessage { message: slice_to_vec(p) });
                },
                Some(pm) => {
                    if pm.author != author {
                        return Err(Error::PreviousMessageAuthorIsIncorrect {  });
                    }
                    if pm.sequence >= MAX_SEQUENCE {
                        return Err(Error::LegacyJsonEncodeFailed {  });
                    }
                    (pm.sequence + 1, Some(pm.key))
                },
            }
        },
    };
    if !content_admissible(content) {
        return Err(Error::LegacyJsonEncodeFailed {  });
    }
    let seq_digits = u64_dec_digits(sequence);
    let signable_signature = match strategy {
        SigningStrategy::OmitSignatureField => None,
        SigningStrategy::ZeroedSignatureField => Some(zero_multisig_string()),
    };
    let signable = match encode_envelope(
        author.clone(),
        clone_opt_string(&prev_key),
        sequence,
        seq_digits.as_slice(),
        timestamp,
        content,
        signable_signature,
    ) {
        Some(v) => v,
        None => {
            return Err(Error::LegacyJsonEncodeFailed {  });
        },
    };
    let signature = match sign_detached(signable.as_slice(), secret_key) {
        Some(s) => s,
        None => {
            return Err(Error::InvalidSecretKey {  });
        },
    };
    let sig_string = multisig_legacy_string(signature.as_slice());
    let signed = match encode_envelope(
        author,
        prev_key,
        sequence,
        seq_digits.as_slice(),
        timestamp,
        content,
        Some(sig_string),
    ) {
        Some(v) => v,
        None => {
            return Err(Error::LegacyJsonEncodeFailed {  });
        },
    };
    let key = get_multihash_from_message_bytes(signed.as_slice());
    proof {
        let d = sha256_of(low_utf16_bytes(vstd::utf8::decode_utf8(signed@)));
        assert(exists|w: Seq<u8>| w.len() == 32 && key@ == multihash_string(w)) by {
            assert(d.len() == 32 && key@ == multihash_string(d));
        }
    }
    let keyed = encode_keyed(&key, signed.as_slice());
    Ok(PublishedMessage { value_bytes: signed, keyed_bytes: keyed, key })
}

/// Publish a new entry under the legacy signing strategy (signature field
/// absent from the signable bytes, the form the ecosystem's verifiers check)
/// and return it in full.
pub fn publish_entry(
    content: &[u8],
    previous: Option<&[u8]>,
    public_key: &[u8],
    secret_key: &[u8],
    timestamp: &[u8],
) -> (r: Result<PublishedMessage, Error>)
    ensures
        r is Ok <==> publishable(
            content@,
            opt_bytes_view(previous),
            public_key@,
            secret_key@,
            timestamp@,
        ),
        r matches Err(e) ==> expected_error(
            content@,
            opt_bytes_view(previous),
            public_key@,
            secret_key@,
            timestamp@,
            e,
        ),
        r matches Ok(m) ==> {
            &&& m.value_bytes@ == signed_value_bytes(
                SigningStrategy::OmitSignatureField,
                content@,
                opt_bytes_view(previous),
                public_key@,
                secret_key@,
                timestamp@,
            )
            &&& m.key@ == message_key_string(
                SigningStrategy::OmitSignatureField,
                content@,
                opt_bytes_view(previous),
                public_key@,
                secret_key@,
                timestamp@,
            )
            &&& m.key@ == multihash_string(
                sha256_of(low_utf16_bytes(vstd::utf8::decode_utf8(m.value_bytes@))),
            )
            &&& vstd::utf8::valid_utf8(m.value_bytes@)
            &&& m.keyed_bytes@ == keyed_message_bytes(
                SigningStrategy::OmitSignatureField,
                content@,
                opt_bytes_view(previous),
                public_key@,
                secret_key@,
                timestamp@,
            )
            &&& envelope_fields(m.keyed_bytes@) == Some(
                MsgFields {
                    key: m.key@,
                    author: multikey_string(public_key@),
                    sequence: next_sequence(opt_bytes_view(previous)),
                },
            )
        },
{
    publish_entry_with(
        content,
        previous,
        public_key,
        secret_key,
        timestamp,
        SigningStrategy::OmitSignatureField,
    )
}

/// Publish a new entry and return the `{key, value}` bytes, the shape feeds
/// interchange and the shape accepted back as the next call's previous entry.
pub fn publish(
    content: &[u8],
    previous: Option<&[u8]>,
    public_key: &[u8],
    secret_key: &[u8],
    timestamp: &[u8],
) -> (r: Result<Vec<u8>, Error>)
    ensures
        r is Ok <==> publishable(
            content@,
            opt_bytes_view(previous),
            public_key@,
            secret_key@,
            timestamp@,
        ),
        r matches Err(e) ==> expected_error(
            content@,
            opt_bytes_view(previous),
            public_key@,
            secret_key@,
            timestamp@,
            e,
        ),
        r matches Ok(b) ==> b@ == keyed_message_bytes(
            SigningStrategy::OmitSignatureField,
            content@,
            opt_bytes_view(previous),
            public_key@,
            secret_key@,
            timestamp@,
        ),
        r matches Ok(b) ==> envelope_fields(b@) == Some(
            MsgFields {
                key: message_key_string(
                    SigningStrategy::OmitSignatureField,
                    content@,
                    opt_bytes_view(previous),
                    public_key@,
                    secret_key@,
                    timestamp@,
                ),
                author: multikey_string(public_key@),
                sequence: next_sequence(opt_bytes_view(previous)),
            },
        ),
{
    match publish_entry(content, previous, public_key, secret_key, timestamp) {
        Ok(m) => Ok(m.keyed_bytes),
        Err(e) => Err(e),
    }
}

/// Determinism: the contract of [`publish`] pins every successful result to
/// [`keyed_message_bytes`], a pure function of the call's inputs, so two
/// calls with equal inputs (timestamp included) return byte-identical
/// entries.
pub proof fn lemma_publish_deterministic(
    content: Seq<u8>,
    previous: Option<Seq<u8>>,
    pk: Seq<u8>,
    sk: Seq<u8>,
    ts: Seq<u8>,
    b1: Seq<u8>,
    b2: Seq<u8>,
)
    requires
        b1 == keyed_message_bytes(
            SigningStrategy::OmitSignatureField,
            content,
            previous,
            pk,
            sk,
            ts,
        ),
        b2 == keyed_message_bytes(
            SigningStrategy::OmitSignatureField,
            content,
            previous,
            pk,
            sk,
            ts,
        ),
    ensures
        b1 == b2,
{
}

/// First entry: with no previous entry, the new envelope is assembled with
/// sequence number 1 and no previous reference.
pub proof fn lemma_first_entry()
    ensures
        next_sequence(None) == 1,
        previous_key(None) is None,
{
}

/// Chaining: after a decodable previous entry, the new envelope is assembled
/// with the successor of that entry's sequence number and with that entry's
/// content identifier as its previous reference.
pub proof fn lemma_chaining(p: Seq<u8>, f: MsgFields)
    requires
        envelope_fields(p) == Some(f),
    ensures
        next_sequence(Some(p)) == (f.sequence + 1) as u64,
        previous_key(Some(p)) == Some(f.key),
{
}

} // verus!
