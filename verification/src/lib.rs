//! Password-based authenticated file encryption.
//!
//! A password and a fresh random salt are stretched by a memory-hard hash
//! into secret material, which is split into a stream-cipher key, a base
//! nonce and a MAC key. The body is transformed chunk by chunk with the
//! keystream at each chunk's absolute offset, so the bytes produced do not
//! depend on the chunking. A keyed digest over the whole ciphertext body is
//! stored, with the salt, in a fixed 80-byte header in front of the body;
//! decryption authenticates the entire body against that tag before any
//! plaintext is released.

pub mod errors;
pub mod bytes;
pub mod kdf;
pub mod cipher;
pub mod auth;
pub mod container;
pub mod scheduler;
pub mod engine;
pub mod session;
pub mod laws;
