//! A chunk-at-a-time session over one derived secret, for callers that
//! stream a large file under a bounded buffer instead of holding it whole.
//!
//! The session owns the key material of one operation. Sealing feeds each
//! ciphertext chunk to the tag in the order produced; absorbing feeds stored
//! ciphertext for authentication before any of it is opened; opening is a
//! stateless transform at an absolute offset, so an authenticating pass and
//! a decrypting pass over the same bytes agree. The bytes a session produces
//! are exactly the bytes of the whole-buffer engine: chunk boundaries never
//! show in the output.

use vstd::prelude::*;
use crate::auth::{tag_of, ChunkAuthenticator, TAG_LEN};
use crate::bytes;
use crate::cipher::{self, STREAM_LIMIT};
use crate::errors::KeyDerivationError;
use crate::kdf::{
    self, derivable, derived_secret, key_part, mac_part, nonce_part, KEY_LEN, NONCE_LEN,
    SECRET_LEN,
};

verus! {

/// Key material and tag state of one streaming operation.
pub struct Session {
    key: Vec<u8>,
    nonce: Vec<u8>,
    authenticator: ChunkAuthenticator,
}

impl Session {
    /// The cipher key this session transforms with.
    pub closed spec fn key(&self) -> Seq<u8> {
        self.key@
    }

    /// The base nonce this session transforms with.
    pub closed spec fn nonce(&self) -> Seq<u8> {
        self.nonce@
    }

    /// The MAC key this session tags with.
    pub closed spec fn mac_key(&self) -> Seq<u8> {
        self.authenticator.mac_key()
    }

    /// Every ciphertext byte fed to the tag so far, in order.
    pub closed spec fn fed(&self) -> Seq<u8> {
        self.authenticator.transcript()
    }

    /// A usable session carries full-length key material.
    pub closed spec fn wf(&self) -> bool {
        &&& self.key@.len() == KEY_LEN
        &&& self.nonce@.len() == NONCE_LEN
        &&& self.authenticator.wf()
    }

    /// Derives one secret and opens a session on it: succeeds exactly where
    /// `kdf::derive` does, and the session's key material is the partition
    /// of that derived secret.
    pub fn start(password: &Vec<u8>, salt: &Vec<u8>, kdf_cost: u32) -> (r: Result<
        Session,
        KeyDerivationError,
    >)
        ensures
            r is Ok <==> derivable(password@, salt@, kdf_cost as int),
            password@.len() == 0 <==> r == Err::<Session, _>(KeyDerivationError::EmptyPassword),
            password@.len() > 0 && salt@.len() != kdf::SALT_LEN <==> r == Err::<Session, _>(
                KeyDerivationError::BadSaltLength,
            ),
            password@.len() > 0 && salt@.len() == kdf::SALT_LEN ==> (r matches Err(e) ==> e
                == KeyDerivationError::ResourceExhausted),
            r matches Ok(s) ==> ({
                let secret = derived_secret(password@, salt@, kdf_cost as int);
                &&& s.wf()
                &&& s.key() == key_part(secret)
                &&& s.nonce() == nonce_part(secret)
                &&& s.mac_key() == mac_part(secret)
                &&& s.fed() == Seq::<u8>::empty()
            }),
    {
        let mut secret = match kdf::derive(password, salt, kdf_cost) {
            Ok(s) => s,
            Err(e) => return Err(e),
        };
        let key = bytes::copy_range(&secret, 0, KEY_LEN);
        let nonce = bytes::copy_range(&secret, KEY_LEN, KEY_LEN + NONCE_LEN);
        let mac_key = bytes::copy_range(&secret, KEY_LEN + NONCE_LEN, SECRET_LEN);
        bytes::wipe(&mut secret);
        Ok(Session { key, nonce, authenticator: ChunkAuthenticator::new(mac_key) })
    }

    /// Encrypts the next plaintext chunk, sitting at the position right
    /// after everything sealed so far, and feeds the ciphertext to the tag.
    pub fn seal_chunk(&mut self, chunk: &Vec<u8>) -> (r: Vec<u8>)
        requires
            old(self).wf(),
            old(self).fed().len() + chunk@.len() <= STREAM_LIMIT,
            old(self).fed().len() + chunk@.len() <= usize::MAX,
        ensures
            final(self).wf(),
            r@ == cipher::stream_xform(
                old(self).key(),
                old(self).nonce(),
                old(self).fed().len() as int,
                chunk@,
            ),
            final(self).key() == old(self).key(),
            final(self).nonce() == old(self).nonce(),
            final(self).mac_key() == old(self).mac_key(),
            final(self).fed() == old(self).fed() + r@,
    {
        let offset = self.authenticator.transcript_len();
        let sealed = cipher::apply_stream(&self.key, &self.nonce, offset, chunk);
        self.authenticator.update(&sealed);
        sealed
    }

    /// Feeds the next stored ciphertext chunk to the tag without opening
    /// it: the authenticating pass that precedes any decryption.
    pub fn absorb_chunk(&mut self, chunk: &Vec<u8>)
        requires
            old(self).wf(),
            old(self).fed().len() + chunk@.len() <= usize::MAX,
        ensures
            final(self).wf(),
            final(self).key() == old(self).key(),
            final(self).nonce() == old(self).nonce(),
            final(self).mac_key() == old(self).mac_key(),
            final(self).fed() == old(self).fed() + chunk@,
    {
        self.authenticator.update(chunk);
    }

    /// Decrypts a ciphertext chunk sitting at absolute body offset
    /// `offset`. Stateless, so a caller can open chunks after a separate
    /// authenticating pass over the same bytes.
    pub fn open_chunk(&self, offset: usize, chunk: &Vec<u8>) -> (r: Vec<u8>)
        requires
            self.wf(),
            offset + chunk@.len() <= STREAM_LIMIT,
        ensures
            r@ == cipher::stream_xform(self.key(), self.nonce(), offset as int, chunk@),
    {
        cipher::apply_stream(&self.key, &self.nonce, offset, chunk)
    }

    /// The tag of everything fed so far.
    pub fn tag(&self) -> (r: Vec<u8>)
        requires
            self.wf(),
        ensures
            r@ == tag_of(self.mac_key(), self.fed()),
            r@.len() == TAG_LEN,
    {
        self.authenticator.finalize()
    }

    /// Whether a stored tag is the tag of everything fed so far, compared
    /// without an early exit.
    pub fn matches_tag(&self, candidate: &Vec<u8>) -> (r: bool)
        requires
            self.wf(),
        ensures
            r <==> candidate@ == tag_of(self.mac_key(), self.fed()),
    {
        self.authenticator.verify(candidate)
    }

    /// Overwrites the session's key material with zeros. Called when the
    /// operation is done, on every exit path.
    pub fn retire(&mut self)
        ensures
            final(self).key().len() == old(self).key().len(),
            final(self).nonce().len() == old(self).nonce().len(),
            forall|i: int| 0 <= i < final(self).key().len() ==> final(self).key()[i] == 0u8,
            forall|i: int| 0 <= i < final(self).nonce().len() ==> final(self).nonce()[i] == 0u8,
            forall|i: int| 0 <= i < final(self).mac_key().len() ==> final(self).mac_key()[i]
                == 0u8,
    {
        bytes::wipe(&mut self.key);
        bytes::wipe(&mut self.nonce);
        self.authenticator.retire();
    }
}

} // verus!
