//! The orchestrator: `box_bytes` (encrypt and tag) and `unbox_bytes`
//! (authenticate and decrypt), over in-memory bodies.
//!
//! The caller reads the input file into bytes and writes the returned bytes
//! back out; everything between — deriving the secret, splitting it into
//! key, nonce and MAC key, transforming the body chunk by chunk, computing
//! or checking the tag, and assembling or parsing the container — happens
//! here. Derived key material is overwritten with zeros on every exit path;
//! the caller retires the password itself with [`crate::bytes::wipe`].
//!
//! A thread budget bounds how many chunks a dispatcher may hold in flight at
//! once. No byte of the output depends on it, or on the memory budget: the
//! contracts of `box_bytes` name neither.

use vstd::prelude::*;
use crate::auth::{tag_of, ChunkAuthenticator};
use crate::bytes;
use crate::cipher::{stream_xform, STREAM_LIMIT};
use crate::container::{self, container_body, container_salt, container_tag, HEADER_LEN};
use crate::errors::{BoxError, ContainerError, KeyDerivationError, UnboxError};
use crate::kdf::{
    self, derived_secret, key_part, mac_part, nonce_part, KEY_LEN, NONCE_LEN, SALT_LEN,
    SECRET_LEN,
};
use crate::scheduler;

verus! {

/// The container that boxing plaintext `p` under password `w`, salt `salt`
/// and key-derivation memory cost `kdf_cost` produces: the tag of the
/// ciphertext body under the derived MAC key, then the salt, then the body.
pub open spec fn box_spec(p: Seq<u8>, w: Seq<u8>, salt: Seq<u8>, kdf_cost: int) -> Seq<u8> {
    let secret = derived_secret(w, salt, kdf_cost);
    let body = stream_xform(key_part(secret), nonce_part(secret), 0, p);
    tag_of(mac_part(secret), body) + salt + body
}

/// Whether container `c` authenticates under password `w`: the stored tag
/// is the tag of the stored body under the MAC key derived from `w` and the
/// stored salt.
pub open spec fn unbox_auth_ok(c: Seq<u8>, w: Seq<u8>, kdf_cost: int) -> bool {
    let secret = derived_secret(w, container_salt(c), kdf_cost);
    container_tag(c) == tag_of(mac_part(secret), container_body(c))
}

/// The plaintext that unboxing container `c` under password `w` recovers.
pub open spec fn unbox_plain(c: Seq<u8>, w: Seq<u8>, kdf_cost: int) -> Seq<u8> {
    let secret = derived_secret(w, container_salt(c), kdf_cost);
    stream_xform(key_part(secret), nonce_part(secret), 0, container_body(c))
}

/// Index of the last `.` in a byte string, `-1` when there is none.
pub open spec fn last_dot(s: Seq<u8>) -> int
    decreases s.len(),
{
    if s.len() == 0 {
        -1
    } else if s[s.len() - 1] == 46u8 {
        s.len() - 1
    } else {
        last_dot(s.drop_last())
    }
}

proof fn lemma_last_dot_none(s: Seq<u8>)
    requires
        forall|j: int| 0 <= j < s.len() ==> s[j] != 46u8,
    ensures
        last_dot(s) == -1,
    decreases s.len(),
{
    if s.len() > 0 {
        lemma_last_dot_none(s.drop_last());
    }
}

proof fn lemma_last_dot_at(s: Seq<u8>, idx: int)
    requires
        0 <= idx < s.len(),
        s[idx] == 46u8,
        forall|j: int| idx < j < s.len() ==> s[j] != 46u8,
    ensures
        last_dot(s) == idx,
    decreases s.len(),
{
    if idx < s.len() - 1 {
        lemma_last_dot_at(s.drop_last(), idx);
    }
}

/// The name an operation's output file takes: the input name up to its last
/// `.`, then the new extension. An input without a `.` has no stem to reuse
/// and yields nothing. The byte `46` is `.`, so a caller holding UTF-8 gets
/// UTF-8 back.
pub fn output_name(input: &Vec<u8>, extension: &Vec<u8>) -> (r: Option<Vec<u8>>)
    requires
        input@.len() + 1 + extension@.len() <= usize::MAX,
    ensures
        r is Some <==> last_dot(input@) >= 0,
        r matches Some(o) ==> o@ == input@.subrange(0, last_dot(input@)) + seq![46u8]
            + extension@,
{
    let n = input.len();
    let mut i: usize = n;
    while i > 0
        invariant
            i <= n == input@.len(),
            n + 1 + extension@.len() <= usize::MAX,
            forall|j: int| i <= j < n ==> input@[j] != 46u8,
        decreases i,
    {
        if input[i - 1] == 46u8 {
            proof {
                lemma_last_dot_at(input@, i - 1);
            }
            let mut out = bytes::copy_range(input, 0, i - 1);
            out.push(46u8);
            container::append_all(&mut out, extension);
            proof {
                assert(out@ =~= input@.subrange(0, last_dot(input@)) + seq![46u8] + extension@);
            }
            return Some(out);
        }
        i = i - 1;
    }
    proof {
        lemma_last_dot_none(input@);
    }
    None
}

/// Relies on `getrandom::getrandom`: on success the buffer is filled with
/// operating-system randomness. Nothing is assumed of the values drawn.
#[verifier::external_body]
fn random_salt() -> (r: Option<Vec<u8>>)
    ensures
        r matches Some(s) ==> s@.len() == SALT_LEN,
{
    let mut salt = vec![0u8; SALT_LEN];
    match getrandom::getrandom(&mut salt) {
        Ok(()) => Some(salt),
        Err(_) => None,
    }
}

/// Draws a fresh 16-byte salt from the operating system, for callers that
/// stream an operation through a [`crate::session::Session`] and so place
/// the salt in the header themselves. Nothing can be promised of random
/// bytes but their number.
pub fn generate_salt() -> (r: Option<Vec<u8>>)
    ensures
        r matches Some(s) ==> s@.len() == SALT_LEN,
{
    random_salt()
}

/// Encrypts and tags `plaintext` under `password` with the given salt.
///
/// Succeeds exactly on derivable inputs — supported password length, 16-byte
/// salt, cost within range — and pins the whole container otherwise.
/// `threads` bounds a dispatcher's in-flight chunks and `mem_bytes` bounds
/// the chunk size; neither appears in the result, which is the point: the
/// bytes produced are the same under every resource budget. `kdf_cost` is
/// the key-derivation memory cost in KiB and does change the key material.
pub fn box_with_salt(
    plaintext: &Vec<u8>,
    password: &Vec<u8>,
    salt: &Vec<u8>,
    threads: usize,
    mem_bytes: usize,
    kdf_cost: u32,
) -> (r: Result<Vec<u8>, BoxError>)
    requires
        plaintext@.len() <= STREAM_LIMIT,
        plaintext@.len() + HEADER_LEN <= usize::MAX,
    ensures
        r is Ok <==> kdf::derivable(password@, salt@, kdf_cost as int),
        password@.len() == 0 <==> r == Err::<Vec<u8>, BoxError>(
            BoxError::KeyDerivation(KeyDerivationError::EmptyPassword),
        ),
        password@.len() > 0 && salt@.len() != SALT_LEN <==> r == Err::<Vec<u8>, BoxError>(
            BoxError::KeyDerivation(KeyDerivationError::BadSaltLength),
        ),
        r matches Ok(c) ==> c@ == box_spec(plaintext@, password@, salt@, kdf_cost as int)
            && c@.len() == HEADER_LEN + plaintext@.len(),
        password@.len() > 0 && salt@.len() == SALT_LEN ==> (r matches Err(e) ==> e
            == BoxError::KeyDerivation(KeyDerivationError::ResourceExhausted)),
{
    let mut secret = match kdf::derive(password, salt, kdf_cost) {
        Ok(s) => s,
        Err(e) => return Err(BoxError::KeyDerivation(e)),
    };
    let mut key = bytes::copy_range(&secret, 0, KEY_LEN);
    let mut nonce = bytes::copy_range(&secret, KEY_LEN, KEY_LEN + NONCE_LEN);
    let mac_key = bytes::copy_range(&secret, KEY_LEN + NONCE_LEN, SECRET_LEN);
    bytes::wipe(&mut secret);

    let mut authenticator = ChunkAuthenticator::new(mac_key);
    let c = scheduler::chunk_size(mem_bytes);
    let body = scheduler::encrypt_chunks(&key, &nonce, c, plaintext, &mut authenticator);
    let tag = authenticator.finalize();
    let out = container::encode_container(&tag, salt, &body);

    authenticator.retire();
    bytes::wipe(&mut key);
    bytes::wipe(&mut nonce);
    Ok(out)
}

/// Encrypts and tags `plaintext` under `password` with a salt drawn fresh
/// from the operating system; the salt used is the one stored in the
/// returned container's header.
pub fn box_bytes(
    plaintext: &Vec<u8>,
    password: &Vec<u8>,
    threads: usize,
    mem_bytes: usize,
    kdf_cost: u32,
) -> (r: Result<Vec<u8>, BoxError>)
    requires
        plaintext@.len() <= STREAM_LIMIT,
        plaintext@.len() + HEADER_LEN <= usize::MAX,
    ensures
        r matches Ok(c) ==> c@ == box_spec(
            plaintext@,
            password@,
            container_salt(c@),
            kdf_cost as int,
        ) && c@.len() == HEADER_LEN + plaintext@.len(),
        kdf::password_supported(password@) && kdf::cost_supported(kdf_cost as int) ==> (r is Ok
            || r == Err::<Vec<u8>, BoxError>(BoxError::Random)),
        password@.len() == 0 <==> r == Err::<Vec<u8>, BoxError>(
            BoxError::KeyDerivation(KeyDerivationError::EmptyPassword),
        ),
        r matches Err(e) ==> (e == BoxError::Random || e == BoxError::KeyDerivation(
            KeyDerivationError::EmptyPassword,
        ) || e == BoxError::KeyDerivation(KeyDerivationError::ResourceExhausted)),
{
    if password.len() == 0 {
        return Err(BoxError::KeyDerivation(KeyDerivationError::EmptyPassword));
    }
    let salt = match random_salt() {
        Some(s) => s,
        None => return Err(BoxError::Random),
    };
    match box_with_salt(plaintext, password, &salt, threads, mem_bytes, kdf_cost) {
        Ok(c) => {
            proof {
                assert(container_salt(c@) =~= salt@);
            }
            Ok(c)
        },
        Err(e) => Err(e),
    }
}

/// Authenticates and decrypts a container.
///
/// The whole body is authenticated against the stored tag; plaintext is
/// handed out only when the tag matches, and is overwritten with zeros
/// before the error return when it does not, so a forged or altered
/// container yields one authentication failure and no partial output. For a
/// full-length container, a supported password and cost, the outcome is
/// decided by the tag alone: the plaintext when it matches, an
/// authentication error when it does not.
pub fn unbox_bytes(
    c: &Vec<u8>,
    password: &Vec<u8>,
    threads: usize,
    mem_bytes: usize,
    kdf_cost: u32,
) -> (r: Result<Vec<u8>, UnboxError>)
    requires
        c@.len() <= STREAM_LIMIT,
    ensures
        c@.len() < HEADER_LEN <==> r == Err::<Vec<u8>, UnboxError>(
            UnboxError::Container(ContainerError::Truncated),
        ),
        c@.len() >= HEADER_LEN ==> (password@.len() == 0 <==> r == Err::<Vec<u8>, UnboxError>(
            UnboxError::KeyDerivation(KeyDerivationError::EmptyPassword),
        )),
        r matches Ok(p) ==> unbox_auth_ok(c@, password@, kdf_cost as int) && p@ == unbox_plain(
            c@,
            password@,
            kdf_cost as int,
        ),
        r == Err::<Vec<u8>, UnboxError>(UnboxError::Authentication) ==> !unbox_auth_ok(
            c@,
            password@,
            kdf_cost as int,
        ),
        c@.len() >= HEADER_LEN && password@.len() > 0 ==> (r matches Err(e) ==> (e
            == UnboxError::KeyDerivation(KeyDerivationError::ResourceExhausted) || e
            == UnboxError::Authentication)),
        c@.len() >= HEADER_LEN && password@.len() > 0 ==> (r == Err::<Vec<u8>, UnboxError>(
            UnboxError::KeyDerivation(KeyDerivationError::ResourceExhausted),
        ) <==> !(kdf::password_supported(password@) && kdf::cost_supported(kdf_cost as int))),
        c@.len() >= HEADER_LEN && kdf::password_supported(password@) && kdf::cost_supported(
            kdf_cost as int,
        ) ==> ((r is Ok <==> unbox_auth_ok(c@, password@, kdf_cost as int)) && (
        !unbox_auth_ok(c@, password@, kdf_cost as int) ==> r == Err::<Vec<u8>, UnboxError>(
            UnboxError::Authentication,
        ))),
{
    let (stored_tag, salt) = match container::read_header(c) {
        Ok(pair) => pair,
        Err(e) => return Err(UnboxError::Container(e)),
    };
    let body = match container::read_body(c) {
        Ok(b) => b,
        Err(e) => return Err(UnboxError::Container(e)),
    };
    let mut secret = match kdf::derive(password, &salt, kdf_cost) {
        Ok(s) => s,
        Err(e) => return Err(UnboxError::KeyDerivation(e)),
    };
    let mut key = bytes::copy_range(&secret, 0, KEY_LEN);
    let mut nonce = bytes::copy_range(&secret, KEY_LEN, KEY_LEN + NONCE_LEN);
    let mac_key = bytes::copy_range(&secret, KEY_LEN + NONCE_LEN, SECRET_LEN);
    bytes::wipe(&mut secret);

    let mut authenticator = ChunkAuthenticator::new(mac_key);
    let chunk = scheduler::chunk_size(mem_bytes);
    let body_len = body.len();
    proof {
        assert(authenticator.transcript().len() + body@.len() == body_len);
    }
    let mut plain = scheduler::decrypt_chunks(&key, &nonce, chunk, &body, &mut authenticator);
    let genuine = authenticator.verify(&stored_tag);

    authenticator.retire();
    bytes::wipe(&mut key);
    bytes::wipe(&mut nonce);
    if genuine {
        Ok(plain)
    } else {
        bytes::wipe(&mut plain);
        Err(UnboxError::Authentication)
    }
}

} // verus!
