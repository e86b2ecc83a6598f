use sha2::Digest;
use ssb_crypto::Keypair;
use ssb_legacy_msg_data::json::{from_slice, to_vec};
use ssb_legacy_msg_data::value::Value;
use ssb_legacy_msg_data::LegacyF64;
use ssb_publish::{
    get_multihash_from_message_bytes, node_buffer_binary_serializer, publish, publish_entry,
    publish_entry_with, Error, SigningStrategy,
};
use ssb_validate::message::validate_message_hash_chain;
use ssb_verify_signatures::verify_message;

const CONTACT_1: &[u8] = br#"{"type":"contact","contact":"@9Zf0se86PotjNqaOt9ue8BNBLkGVLQcLNDw/pRQHY3U=.ed25519","following":true,"blocking":false}"#;
const CONTACT_2: &[u8] = br#"{"type":"contact","contact":"@9Zf0se86PotjNqaOt9ue8BNBLkGVLQcLNDw/pRQHY3U=.ed25519","following":false,"blocking":false}"#;

fn keypair_bytes(kp: &Keypair) -> (Vec<u8>, Vec<u8>) {
    let pk = kp.public.0.to_vec();
    let mut sk = Vec::new();
    sk.extend_from_slice(&kp.secret.0);
    sk.extend_from_slice(&kp.public.0);
    (pk, sk)
}

fn field<'a>(v: &'a Value, name: &str) -> &'a Value {
    match v {
        Value::Object(m) => m.get(name).expect("missing field"),
        _ => panic!("not an object"),
    }
}

fn as_string(v: &Value) -> String {
    match v {
        Value::String(s) => s.clone(),
        _ => panic!("not a string"),
    }
}

#[test]
fn it_works() {
    let kp = Keypair::generate();
    let (pk, sk) = keypair_bytes(&kp);

    let msg1 = publish(CONTACT_1, None, &pk, &sk, b"0").unwrap();

    let is_valid1 = validate_message_hash_chain::<_, &[u8]>(&msg1, None).is_ok();
    let is_verified1 = verify_message(&msg1).is_ok();

    let msg2 = publish(CONTACT_2, Some(&msg1), &pk, &sk, b"0").unwrap();

    let is_valid2 = validate_message_hash_chain(&msg2, Some(&msg1)).is_ok();
    let is_verified2 = verify_message(&msg2).is_ok();

    assert!(is_valid1);
    assert!(is_verified1);
    assert!(is_valid2);
    assert!(is_verified2);
}

#[test]
fn first_entry_fields() {
    let kp = Keypair::from_seed(&[7u8; 32]).unwrap();
    let (pk, sk) = keypair_bytes(&kp);
    let author = ssb_multiformats::multikey::Multikey::from_ed25519(&kp.public.0)
        .to_legacy_string();

    let msg = publish(CONTACT_1, None, &pk, &sk, b"0").unwrap();
    let parsed: Value = from_slice(&msg).unwrap();
    let value = field(&parsed, "value");

    assert!(matches!(field(value, "previous"), Value::Null));
    assert_eq!(as_string(field(value, "author")), author);
    let seq = match field(value, "sequence") {
        Value::Float(f) => f64::from(*f),
        _ => panic!("sequence is not a number"),
    };
    assert_eq!(seq, 1.0);
    assert_eq!(as_string(field(value, "hash")), "sha256");
}

#[test]
fn chaining_fields() {
    let kp = Keypair::from_seed(&[8u8; 32]).unwrap();
    let (pk, sk) = keypair_bytes(&kp);

    let m1 = publish_entry(CONTACT_1, None, &pk, &sk, b"0").unwrap();
    let m2 = publish_entry(CONTACT_2, Some(&m1.keyed_bytes), &pk, &sk, b"1").unwrap();

    let parsed: Value = from_slice(&m2.keyed_bytes).unwrap();
    let value = field(&parsed, "value");
    assert_eq!(as_string(field(value, "previous")), m1.key);
    let seq = match field(value, "sequence") {
        Value::Float(f) => f64::from(*f),
        _ => panic!("sequence is not a number"),
    };
    assert_eq!(seq, 2.0);

    assert!(validate_message_hash_chain(&m2.keyed_bytes, Some(&m1.keyed_bytes)).is_ok());
    assert!(verify_message(&m1.keyed_bytes).is_ok());
    assert!(verify_message(&m2.keyed_bytes).is_ok());
}

#[test]
fn author_continuity_rejected() {
    let kp1 = Keypair::from_seed(&[9u8; 32]).unwrap();
    let (pk1, sk1) = keypair_bytes(&kp1);
    let kp2 = Keypair::from_seed(&[10u8; 32]).unwrap();
    let (pk2, sk2) = keypair_bytes(&kp2);

    let msg1 = publish(CONTACT_1, None, &pk1, &sk1, b"0").unwrap();
    let err = publish(CONTACT_2, Some(&msg1), &pk2, &sk2, b"1").unwrap_err();
    assert!(matches!(err, Error::PreviousMessageAuthorIsIncorrect {}));
}

#[test]
fn identifier_integrity() {
    let kp = Keypair::from_seed(&[11u8; 32]).unwrap();
    let (pk, sk) = keypair_bytes(&kp);

    let m = publish_entry(CONTACT_1, None, &pk, &sk, b"0").unwrap();

    // The `{key, value}` wrapper embeds the same identifier.
    let parsed: Value = from_slice(&m.keyed_bytes).unwrap();
    assert_eq!(as_string(field(&parsed, "key")), m.key);

    // Re-encoding the embedded value reproduces the envelope bytes.
    let value_reencoded = to_vec(field(&parsed, "value"), false).unwrap();
    assert_eq!(value_reencoded, m.value_bytes);

    // Recomputing the identifier from the envelope bytes (transcode, digest,
    // render) reproduces the returned key.
    let text = std::str::from_utf8(&m.value_bytes).unwrap();
    let transcoded = node_buffer_binary_serializer(text);
    let digest = sha2::Sha256::digest(&transcoded);
    let mut arr = [0u8; 32];
    arr.copy_from_slice(&digest);
    let recomputed = ssb_multiformats::multihash::Multihash::Message(arr).to_legacy_string();
    assert_eq!(recomputed, m.key);

    // The library's own hasher agrees.
    assert_eq!(get_multihash_from_message_bytes(&m.value_bytes), m.key);
}

#[test]
fn non_latin1_content_hashes_consistently() {
    let kp = Keypair::from_seed(&[22u8; 32]).unwrap();
    let (pk, sk) = keypair_bytes(&kp);

    // The validator recomputes the identifier with its own UTF-16 low-byte
    // transcoding, so characters outside Latin-1 in the content exercise the
    // crate's transcoder against an independent implementation.
    let content = r#"{"type":"about","about":"héllo ☃ snowman"}"#.as_bytes();
    let msg = publish(content, None, &pk, &sk, b"0").unwrap();
    assert!(validate_message_hash_chain::<_, &[u8]>(&msg, None).is_ok());
    assert!(verify_message(&msg).is_ok());
}

#[test]
fn base64_matches_multiformats() {
    let kp = Keypair::from_seed(&[21u8; 32]).unwrap();
    let author = ssb_multiformats::multikey::Multikey::from_ed25519(&kp.public.0)
        .to_legacy_string();

    // `@`, then the standard base64 of the 32 key bytes, then `.ed25519` —
    // the crate's own base64 must reproduce the multiformats rendering.
    let encoded: String = ssb_publish::base64_chars(&kp.public.0).into_iter().collect();
    assert_eq!(author, format!("@{}.ed25519", encoded));

    // Padding cases: one and two trailing bytes.
    let one: String = ssb_publish::base64_chars(&[0xFF]).into_iter().collect();
    assert_eq!(one, "/w==");
    let two: String = ssb_publish::base64_chars(&[0x4D, 0x61]).into_iter().collect();
    assert_eq!(two, "TWE=");
}

#[test]
fn determinism() {
    let kp = Keypair::from_seed(&[12u8; 32]).unwrap();
    let (pk, sk) = keypair_bytes(&kp);

    let a = publish(CONTACT_1, None, &pk, &sk, b"42").unwrap();
    let b = publish(CONTACT_1, None, &pk, &sk, b"42").unwrap();
    assert_eq!(a, b);

    let c = publish(CONTACT_2, Some(&a), &pk, &sk, b"43").unwrap();
    let d = publish(CONTACT_2, Some(&b), &pk, &sk, b"43").unwrap();
    assert_eq!(c, d);
}

#[test]
fn zeroed_signing_strategy() {
    let kp = Keypair::from_seed(&[20u8; 32]).unwrap();
    let (pk, sk) = keypair_bytes(&kp);

    let omitted = publish_entry_with(
        CONTACT_1,
        None,
        &pk,
        &sk,
        b"0",
        SigningStrategy::OmitSignatureField,
    )
    .unwrap();
    let zeroed = publish_entry_with(
        CONTACT_1,
        None,
        &pk,
        &sk,
        b"0",
        SigningStrategy::ZeroedSignatureField,
    )
    .unwrap();

    // The strategies sign different texts, so the finished entries differ.
    assert_ne!(omitted.keyed_bytes, zeroed.keyed_bytes);

    // Either entry's identifier is consistent with its own bytes, but only
    // the omitted-field strategy satisfies the ecosystem's verifier.
    assert!(validate_message_hash_chain::<_, &[u8]>(&zeroed.keyed_bytes, None).is_ok());
    assert!(verify_message(&omitted.keyed_bytes).is_ok());
    assert!(verify_message(&zeroed.keyed_bytes).is_err());
}

#[test]
fn malformed_previous() {
    let kp = Keypair::from_seed(&[13u8; 32]).unwrap();
    let (pk, sk) = keypair_bytes(&kp);

    let truncated: &[u8] = br#"{"key":"%x.sha256","value":{"previo"#;
    let err = publish(CONTACT_1, Some(truncated), &pk, &sk, b"0").unwrap_err();
    match err {
        Error::InvalidPreviousMessage { message } => assert_eq!(message, truncated),
        other => panic!("unexpected error: {:?}", other),
    }
}

#[test]
fn sequence_bound() {
    let kp = Keypair::from_seed(&[14u8; 32]).unwrap();
    let (pk, sk) = keypair_bytes(&kp);
    let author = ssb_multiformats::multikey::Multikey::from_ed25519(&kp.public.0)
        .to_legacy_string();

    let m1 = publish_entry(CONTACT_1, None, &pk, &sk, b"0").unwrap();
    let prev = format!(
        r#"{{"key":"{}","value":{{"previous":null,"author":"{}","sequence":9007199254740992,"timestamp":0,"hash":"sha256","content":{{"type":"contact"}},"signature":"x"}}}}"#,
        m1.key, author,
    );
    // The successor of 2^53 has no exact canonical number encoding, so the
    // envelope cannot be assembled.
    let err = publish(CONTACT_2, Some(prev.as_bytes()), &pk, &sk, b"0").unwrap_err();
    assert!(matches!(err, Error::LegacyJsonEncodeFailed {}));
}

#[test]
fn invalid_public_key() {
    let kp = Keypair::from_seed(&[15u8; 32]).unwrap();
    let (_, sk) = keypair_bytes(&kp);
    let short_pk = vec![1u8; 31];
    let err = publish(CONTACT_1, None, &short_pk, &sk, b"0").unwrap_err();
    assert!(matches!(err, Error::InvalidPublicKey {}));
}

#[test]
fn invalid_secret_key() {
    let kp = Keypair::from_seed(&[16u8; 32]).unwrap();
    let (pk, _) = keypair_bytes(&kp);
    let short_sk = vec![1u8; 63];
    let err = publish(CONTACT_1, None, &pk, &short_sk, b"0").unwrap_err();
    assert!(matches!(err, Error::InvalidSecretKey {}));

    // 64 bytes whose public half is not the one the secret half derives are
    // refused rather than signed with.
    let other = Keypair::from_seed(&[99u8; 32]).unwrap();
    let mut mixed_sk = Vec::new();
    mixed_sk.extend_from_slice(&kp.secret.0);
    mixed_sk.extend_from_slice(&other.public.0);
    let err = publish(CONTACT_1, None, &pk, &mixed_sk, b"0").unwrap_err();
    assert!(matches!(err, Error::InvalidSecretKey {}));
}

#[test]
fn unencodable_timestamp() {
    let kp = Keypair::from_seed(&[17u8; 32]).unwrap();
    let (pk, sk) = keypair_bytes(&kp);

    let err = publish(CONTACT_1, None, &pk, &sk, b"not a number").unwrap_err();
    assert!(matches!(err, Error::LegacyJsonEncodeFailed {}));

    // A number the codec cannot represent (it overflows to infinity).
    let err = publish(CONTACT_1, None, &pk, &sk, b"1e999").unwrap_err();
    assert!(matches!(err, Error::LegacyJsonEncodeFailed {}));
}

#[test]
fn unencodable_content() {
    let kp = Keypair::from_seed(&[18u8; 32]).unwrap();
    let (pk, sk) = keypair_bytes(&kp);

    // A bare number is not an admissible content value.
    let err = publish(b"5", None, &pk, &sk, b"0").unwrap_err();
    assert!(matches!(err, Error::LegacyJsonEncodeFailed {}));

    // An object without a `type` entry is not admissible either.
    let err = publish(br#"{"following":true}"#, None, &pk, &sk, b"0").unwrap_err();
    assert!(matches!(err, Error::LegacyJsonEncodeFailed {}));
}

#[test]
fn timestamp_is_kept() {
    let kp = Keypair::from_seed(&[19u8; 32]).unwrap();
    let (pk, sk) = keypair_bytes(&kp);

    let msg = publish(CONTACT_1, None, &pk, &sk, b"1470186877575.5").unwrap();
    let parsed: Value = from_slice(&msg).unwrap();
    let value = field(&parsed, "value");
    let ts = match field(value, "timestamp") {
        Value::Float(f) => f64::from(*f),
        _ => panic!("timestamp is not a number"),
    };
    assert_eq!(ts, 1470186877575.5);
    let _ = LegacyF64::from_f64(ts).unwrap();
}
