//! Whole-file authentication.
//!
//! A keyed digest over the ordered ciphertext body yields the 64-byte tag
//! stored in the container header. The accumulator is fed ciphertext chunks
//! strictly in index order; feeding the same chunks in another order changes
//! the transcript, and with it the tag, which is what detects reordering and
//! truncation. Verification compares tags without an early exit, so the
//! time it takes does not point at the first differing byte.

use vstd::prelude::*;
use blake2::digest::{KeyInit, Update, FixedOutput};
use crate::bytes;
use crate::kdf::MAC_KEY_LEN;

verus! {

/// Length of an authentication tag.
pub const TAG_LEN: usize = 64;

/// Byte `i` of the keyed digest of `data` under `mac_key`. Only the trusted
/// digest wrapper says which byte this is; everything else relies on it
/// being a pure function of key and data, which is what makes the stored
/// tag reproducible from the same ciphertext.
pub uninterp spec fn tag_byte(mac_key: Seq<u8>, data: Seq<u8>, i: int) -> u8;

/// The full tag: `TAG_LEN` bytes of `tag_byte`.
pub open spec fn tag_of(mac_key: Seq<u8>, data: Seq<u8>) -> Seq<u8> {
    Seq::new(TAG_LEN as nat, |i: int| tag_byte(mac_key, data, i))
}

/// Relies on `blake2::Blake2bMac512`: the 64-byte keyed BLAKE2b digest is a
/// pure function of the key and the input bytes, and construction cannot
/// fail for keys of at most 64 bytes.
#[verifier::external_body]
fn keyed_digest(mac_key: &Vec<u8>, data: &Vec<u8>) -> (r: Vec<u8>)
    requires
        mac_key@.len() == MAC_KEY_LEN,
    ensures
        r@.len() == TAG_LEN,
        forall|i: int| 0 <= i < TAG_LEN ==> r@[i] == tag_byte(mac_key@, data@, i),
{
    let mut mac = blake2::Blake2bMac512::new_from_slice(mac_key).expect("key fits in 64 bytes");
    mac.update(data);
    mac.finalize_fixed().to_vec()
}

/// Accumulates ordered ciphertext chunks and reduces them to one tag.
pub struct ChunkAuthenticator {
    mac_key: Vec<u8>,
    transcript: Vec<u8>,
}

impl ChunkAuthenticator {
    /// The MAC key this accumulator was keyed with.
    pub closed spec fn mac_key(&self) -> Seq<u8> {
        self.mac_key@
    }

    /// Every byte fed so far, in feeding order.
    pub closed spec fn transcript(&self) -> Seq<u8> {
        self.transcript@
    }

    /// A usable accumulator carries a full-length MAC key.
    pub closed spec fn wf(&self) -> bool {
        self.mac_key@.len() == MAC_KEY_LEN
    }

    /// Starts an empty accumulator under `mac_key`.
    pub fn new(mac_key: Vec<u8>) -> (r: ChunkAuthenticator)
        requires
            mac_key@.len() == MAC_KEY_LEN,
        ensures
            r.wf(),
            r.mac_key() == mac_key@,
            r.transcript() == Seq::<u8>::empty(),
    {
        let r = ChunkAuthenticator { mac_key, transcript: Vec::new() };
        proof {
            assert(r.transcript@ =~= Seq::<u8>::empty());
        }
        r
    }

    /// Feeds the next ciphertext chunk. Chunks must arrive in index order;
    /// the transcript records exactly that order.
    pub fn update(&mut self, chunk: &Vec<u8>)
        requires
            old(self).wf(),
            old(self).transcript().len() + chunk@.len() <= usize::MAX,
        ensures
            final(self).wf(),
            final(self).mac_key() == old(self).mac_key(),
            final(self).transcript() == old(self).transcript() + chunk@,
    {
        let n = chunk.len();
        let mut i: usize = 0;
        while i < n
            invariant
                i <= n == chunk@.len(),
                self.mac_key@ == old(self).mac_key@,
                self.transcript@ == old(self).transcript@ + chunk@.subrange(0, i as int),
                old(self).transcript@.len() + n <= usize::MAX,
            decreases n - i,
        {
            self.transcript.push(chunk[i]);
            i = i + 1;
            proof {
                assert(self.transcript@ =~= old(self).transcript@ + chunk@.subrange(
                    0,
                    i as int,
                ));
            }
        }
        proof {
            assert(chunk@.subrange(0, n as int) =~= chunk@);
        }
    }

    /// How many bytes have been fed so far.
    pub fn transcript_len(&self) -> (r: usize)
        ensures
            r == self.transcript().len(),
    {
        self.transcript.len()
    }

    /// Reduces the transcript to the 64-byte tag.
    pub fn finalize(&self) -> (r: Vec<u8>)
        requires
            self.wf(),
        ensures
            r@ == tag_of(self.mac_key(), self.transcript()),
            r@.len() == TAG_LEN,
    {
        let r = keyed_digest(&self.mac_key, &self.transcript);
        proof {
            assert(r@ =~= tag_of(self.mac_key@, self.transcript@));
        }
        r
    }

    /// Overwrites the MAC key and the transcript with zeros. Called when an
    /// operation is done with its key material, on every exit path.
    pub fn retire(&mut self)
        ensures
            final(self).mac_key().len() == old(self).mac_key().len(),
            final(self).transcript().len() == old(self).transcript().len(),
            forall|i: int| 0 <= i < final(self).mac_key().len() ==> final(self).mac_key()[i]
                == 0u8,
            forall|i: int|
                0 <= i < final(self).transcript().len() ==> final(self).transcript()[i] == 0u8,
    {
        bytes::wipe(&mut self.mac_key);
        bytes::wipe(&mut self.transcript);
    }

    /// Recomputes the tag and compares it with a candidate, without an
    /// early exit on the first differing byte. True exactly when the
    /// candidate is the tag of everything fed so far.
    pub fn verify(&self, candidate: &Vec<u8>) -> (r: bool)
        requires
            self.wf(),
        ensures
            r <==> candidate@ == tag_of(self.mac_key(), self.transcript()),
    {
        let computed = self.finalize();
        bytes::ct_eq(candidate, &computed)
    }
}

} // verus!
