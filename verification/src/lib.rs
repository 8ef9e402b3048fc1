//! A message-digest engine implementing the MD5 hash algorithm: it
//! deterministically maps an arbitrary-length byte sequence to a
//! 16-byte digest.  MD5 is cryptographically broken; this crate treats
//! it as a legacy checksum primitive, not a security guarantee.
//!
//! The algorithm itself — padding and chunking, the 64-step compression
//! function, chaining across blocks, and digest serialization — is
//! stated as spec functions in [`model`] and proved of the executable
//! code in [`md5`].
pub mod md5;
pub mod model;
pub mod tables;
