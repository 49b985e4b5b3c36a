//! Error taxonomy of the engine.
//!
//! Malformed key or nonce lengths cannot arise: every key, nonce and MAC key
//! is carved out of a derived secret whose length is part of the
//! key-derivation contract, so no variant exists for them. I/O failures are
//! reported by the caller that performs the I/O.

use vstd::prelude::*;

verus! {

/// Failure of password-to-key derivation.
#[derive(Clone, Copy, Debug, PartialEq, Eq, Structural)]
pub enum KeyDerivationError {
    /// The password was empty.
    EmptyPassword,
    /// The salt was not exactly `SALT_LEN` bytes.
    BadSaltLength,
    /// The memory cost or the password length lies outside the range the
    /// derivation can serve; the outcome is the same on every machine.
    ResourceExhausted,
}

/// Failure of container parsing.
#[derive(Clone, Copy, Debug, PartialEq, Eq, Structural)]
pub enum ContainerError {
    /// The container holds fewer bytes than the fixed header.
    Truncated,
}

/// Failure of an encryption (`box`) operation.
#[derive(Clone, Copy, Debug, PartialEq, Eq, Structural)]
pub enum BoxError {
    /// Key derivation failed.
    KeyDerivation(KeyDerivationError),
    /// The operating system's randomness source failed while drawing a salt.
    Random,
}

/// Failure of a decryption (`unbox`) operation.
#[derive(Clone, Copy, Debug, PartialEq, Eq, Structural)]
pub enum UnboxError {
    /// The container could not be parsed.
    Container(ContainerError),
    /// Key derivation failed.
    KeyDerivation(KeyDerivationError),
    /// The computed tag did not match the stored tag: the body or the header
    /// was altered, or the password is wrong.
    Authentication,
}

impl KeyDerivationError {
    /// Human-readable cause.
    pub fn message(&self) -> String {
        match self {
            KeyDerivationError::EmptyPassword => "empty password".to_string(),
            KeyDerivationError::BadSaltLength => "salt has the wrong length".to_string(),
            KeyDerivationError::ResourceExhausted => {
                "key derivation ran out of resources".to_string()
            },
        }
    }
}

impl BoxError {
    /// Human-readable cause.
    pub fn message(&self) -> String {
        match self {
            BoxError::KeyDerivation(e) => e.message(),
            BoxError::Random => "randomness source failed".to_string(),
        }
    }
}

impl UnboxError {
    /// Human-readable cause.
    pub fn message(&self) -> String {
        match self {
            UnboxError::Container(ContainerError::Truncated) => {
                "container is shorter than its header".to_string()
            },
            UnboxError::KeyDerivation(e) => e.message(),
            UnboxError::Authentication => "authentication failed".to_string(),
        }
    }
}

} // verus!
