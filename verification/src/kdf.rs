//! Password-to-key derivation.
//!
//! A password and a 16-byte salt are stretched by the Argon2id memory-hard
//! hash into `SECRET_LEN` bytes of key material. The derived bytes are a
//! pure function of the password, the salt and the memory cost, which is
//! what lets decryption reproduce the encryption-time keys from the salt
//! stored in the container header. The lane count and pass count are fixed
//! constants of the library so that the derived bytes never depend on a
//! scheduling budget.

use vstd::prelude::*;
use crate::errors::KeyDerivationError;

verus! {

/// Length of a salt, as stored in the container header.
pub const SALT_LEN: usize = 16;

/// Length of the derived secret: cipher key, base nonce, MAC key.
pub const SECRET_LEN: usize = 88;

/// Length of the stream-cipher key, bytes `[0, 32)` of the secret.
pub const KEY_LEN: usize = 32;

/// Length of the base nonce, bytes `[32, 56)` of the secret.
pub const NONCE_LEN: usize = 24;

/// Length of the MAC key, bytes `[56, 88)` of the secret.
pub const MAC_KEY_LEN: usize = 32;

/// Passes over memory made by the derivation, fixed for reproducibility.
pub const KDF_PASSES: u32 = 2;

/// Lanes used by the derivation, fixed for reproducibility: key material
/// must not vary with a thread budget.
pub const KDF_LANES: u32 = 1;

/// Ceiling on the derivation memory cost in KiB (4 GiB). Above it the
/// backing allocation itself would exhaust the machine before the primitive
/// could refuse, so the library refuses first.
pub const MAX_KDF_COST: u32 = 0x40_0000;

/// Floor on the derivation memory cost in KiB: the primitive needs eight
/// blocks per lane.
pub const MIN_KDF_COST: u32 = 8;

/// Longest password the primitive accepts.
pub const MAX_PASSWORD_LEN: usize = 0xffff_ffff;

/// Whether the primitive accepts a password of this length: non-empty (the
/// library's own rule) and within the primitive's length field.
pub open spec fn password_supported(password: Seq<u8>) -> bool {
    0 < password.len() <= MAX_PASSWORD_LEN
}

/// Whether a derivation memory cost lies in the supported range.
pub open spec fn cost_supported(mem_cost: int) -> bool {
    MIN_KDF_COST <= mem_cost <= MAX_KDF_COST
}

/// Exactly the inputs from which `derive` derives a secret.
pub open spec fn derivable(password: Seq<u8>, salt: Seq<u8>, mem_cost: int) -> bool {
    &&& password_supported(password)
    &&& salt.len() == SALT_LEN
    &&& cost_supported(mem_cost)
}

/// Byte `i` of the key material that the memory-hard hash derives from a
/// password, a salt, and a memory cost in KiB. Only the trusted derivation
/// wrapper says which bytes these are; everything else treats them as an
/// arbitrary pure function of the inputs, which is exactly the determinism
/// the container format relies on.
pub uninterp spec fn secret_byte(password: Seq<u8>, salt: Seq<u8>, mem_cost: int, i: int) -> u8;

/// The full derived secret: `SECRET_LEN` bytes of `secret_byte`.
pub open spec fn derived_secret(password: Seq<u8>, salt: Seq<u8>, mem_cost: int) -> Seq<u8> {
    Seq::new(SECRET_LEN as nat, |i: int| secret_byte(password, salt, mem_cost, i))
}

/// Cipher key portion of a derived secret.
pub open spec fn key_part(secret: Seq<u8>) -> Seq<u8> {
    secret.subrange(0, KEY_LEN as int)
}

/// Base-nonce portion of a derived secret.
pub open spec fn nonce_part(secret: Seq<u8>) -> Seq<u8> {
    secret.subrange(KEY_LEN as int, (KEY_LEN + NONCE_LEN) as int)
}

/// MAC-key portion of a derived secret.
pub open spec fn mac_part(secret: Seq<u8>) -> Seq<u8> {
    secret.subrange((KEY_LEN + NONCE_LEN) as int, SECRET_LEN as int)
}

/// Relies on `argon2::Argon2::hash_password_into` (Argon2id, version 0x13):
/// the filled output buffer is a pure function of the password, the salt and
/// the cost parameters, of which only the memory cost varies here. Its
/// `Result` is deterministic too: every error is a parameter check — with
/// the passes, lanes and output length fixed here, the call succeeds exactly
/// when the memory cost is at least eight blocks, the password fits the
/// primitive's 32-bit length field, and the salt is 8 to 2^32 - 1 bytes.
/// It does not panic; the cost ceiling in `requires` keeps the backing
/// allocation within what the host can serve.
#[verifier::external_body]
fn argon_fill(password: &Vec<u8>, salt: &Vec<u8>, mem_cost: u32) -> (r: Result<
    Vec<u8>,
    KeyDerivationError,
>)
    requires
        mem_cost <= MAX_KDF_COST,
    ensures
        r matches Ok(s) ==> s@.len() == SECRET_LEN && forall|i: int|
            0 <= i < SECRET_LEN ==> s@[i] == secret_byte(password@, salt@, mem_cost as int, i),
        r matches Err(e) ==> e == KeyDerivationError::ResourceExhausted,
        r is Ok <==> (mem_cost >= MIN_KDF_COST && password@.len() <= MAX_PASSWORD_LEN && 8
            <= salt@.len() <= 0xffff_ffff),
{
    let params = match argon2::Params::new(mem_cost, KDF_PASSES, KDF_LANES, Some(SECRET_LEN)) {
        Ok(p) => p,
        Err(_) => return Err(KeyDerivationError::ResourceExhausted),
    };
    let ctx = argon2::Argon2::new(argon2::Algorithm::Argon2id, argon2::Version::V0x13, params);
    let mut out = vec![0u8; SECRET_LEN];
    match ctx.hash_password_into(password, salt, &mut out) {
        Ok(()) => Ok(out),
        Err(_) => Err(KeyDerivationError::ResourceExhausted),
    }
}

/// Derives the secret key material for one operation.
///
/// The outcome is a function of the inputs alone: derivation succeeds
/// exactly on `derivable` inputs, and each rejection names its cause — an
/// empty password, a salt of the wrong length, or a password length or
/// memory cost outside the supported range.
pub fn derive(password: &Vec<u8>, salt: &Vec<u8>, mem_cost: u32) -> (r: Result<
    Vec<u8>,
    KeyDerivationError,
>)
    ensures
        r is Ok <==> derivable(password@, salt@, mem_cost as int),
        password@.len() == 0 <==> r == Err::<Vec<u8>, _>(KeyDerivationError::EmptyPassword),
        password@.len() > 0 && salt@.len() != SALT_LEN <==> r == Err::<Vec<u8>, _>(
            KeyDerivationError::BadSaltLength,
        ),
        r matches Ok(s) ==> s@ == derived_secret(password@, salt@, mem_cost as int)
            && s@.len() == SECRET_LEN,
        password@.len() > 0 && salt@.len() == SALT_LEN ==> (r matches Err(e) ==> e
            == KeyDerivationError::ResourceExhausted),
{
    if password.len() == 0 {
        return Err(KeyDerivationError::EmptyPassword);
    }
    if salt.len() != SALT_LEN {
        return Err(KeyDerivationError::BadSaltLength);
    }
    if password.len() > MAX_PASSWORD_LEN {
        return Err(KeyDerivationError::ResourceExhausted);
    }
    if mem_cost < MIN_KDF_COST || mem_cost > MAX_KDF_COST {
        return Err(KeyDerivationError::ResourceExhausted);
    }
    match argon_fill(password, salt, mem_cost) {
        Ok(s) => {
            proof {
                assert(s@ =~= derived_secret(password@, salt@, mem_cost as int));
            }
            Ok(s)
        },
        Err(e) => Err(e),
    }
}

} // verus!
