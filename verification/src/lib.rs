//! Publish signed Secure Scuttlebutt messages as legacy JSON.
//!
//! The core of the crate is [`publish`]: given application content, the
//! previous entry's encoded bytes, and an ed25519 keypair, it deterministically
//! assembles the next entry of the feed, encodes it canonically, signs it,
//! derives its content identifier, and returns the finished bytes together
//! with that identifier.

pub mod codec;
pub mod crypto;
pub mod decimal;
pub mod multiformat;
pub mod publish;
pub mod transcode;

pub use codec::MsgFields;
pub use multiformat::base64_chars;
pub use codec::MAX_SEQUENCE;
pub use publish::get_multihash_from_message_bytes;
pub use publish::publish;
pub use publish::publish_entry;
pub use publish::publish_entry_with;
pub use publish::Error;
pub use publish::SigningStrategy;
pub use publish::PublishedMessage;
pub use transcode::low_utf16_bytes;
pub use transcode::low_utf16_bytes_of_char;
pub use transcode::node_buffer_binary_serializer;
