//! SHA-256 message digest (FIPS 180-4), with verified padding, message
//! schedule and compression.
pub mod compress;
pub mod digest;
pub mod laws;
pub mod padding;
pub mod render;
pub mod schedule;
pub mod word;

pub use digest::digest;
pub use padding::{pad, padded_length, DigestError, MAX_MESSAGE_LEN};
pub use render::{digest_line, display_label, sha256, to_hex};
