//! Keystream generation and the byte-range transform.
//!
//! The stream cipher turns a 32-byte key and a 24-byte nonce into one long
//! keystream, addressable by absolute byte position. A byte range of the
//! file starting at position `p` is transformed by XORing it with the
//! keystream bytes at positions `p, p+1, ...` — so the transform of a range
//! depends only on its position and contents, never on how the file was cut
//! into chunks, and applying it twice restores the input.

use vstd::prelude::*;
use chacha20::cipher::{KeyIvInit, StreamCipher, StreamCipherSeek};

verus! {

/// Largest keystream position the cipher can address: its block counter is
/// 32 bits wide and each block covers 64 bytes.
pub const STREAM_LIMIT: u64 = 0x3f_ffff_ffc0;

/// Byte of the keystream that the stream cipher produces under `key` and
/// `nonce` at absolute position `pos`. Only the trusted keystream wrapper
/// says which byte this is; everything else relies on it being a pure
/// function of its arguments, which makes the transform reproducible and
/// chunking-independent.
pub uninterp spec fn keystream_byte(key: Seq<u8>, nonce: Seq<u8>, pos: int) -> u8;

/// The transform of `data` sitting at absolute position `start` of the
/// stream: pointwise XOR with the keystream. Its own inverse.
pub open spec fn stream_xform(key: Seq<u8>, nonce: Seq<u8>, start: int, data: Seq<u8>) -> Seq<
    u8,
> {
    Seq::new(data.len(), |i: int| data[i] ^ keystream_byte(key, nonce, start + i))
}

/// Relies on `chacha20::XChaCha20` (through `cipher::StreamCipherSeek`):
/// after seeking to byte position `offset`, applying the cipher to a zero
/// buffer yields the keystream bytes at positions `offset..offset+len`, a
/// pure function of key, nonce and position. Positions below `STREAM_LIMIT`
/// stay within the cipher's 32-bit block counter, so neither the seek nor
/// the keystream application can fail.
#[verifier::external_body]
fn keystream_segment(key: &Vec<u8>, nonce: &Vec<u8>, offset: usize, len: usize) -> (r: Vec<u8>)
    requires
        key@.len() == 32,
        nonce@.len() == 24,
        offset + len <= STREAM_LIMIT,
    ensures
        r@.len() == len,
        forall|i: int| 0 <= i < len ==> r@[i] == keystream_byte(key@, nonce@, offset + i),
{
    let mut cipher = chacha20::XChaCha20::new(key[..].into(), nonce[..].into());
    cipher.try_seek(offset as u64).expect("position within the stream limit");
    let mut buf = vec![0u8; len];
    cipher.try_apply_keystream(&mut buf).expect("length within the stream limit");
    buf
}

/// Transforms `data` as the byte range of the stream starting at absolute
/// position `offset`: encryption and decryption are this same operation.
pub fn apply_stream(key: &Vec<u8>, nonce: &Vec<u8>, offset: usize, data: &Vec<u8>) -> (r: Vec<
    u8,
>)
    requires
        key@.len() == 32,
        nonce@.len() == 24,
        offset + data@.len() <= STREAM_LIMIT,
    ensures
        r@ == stream_xform(key@, nonce@, offset as int, data@),
        r@.len() == data@.len(),
{
    let ks = keystream_segment(key, nonce, offset, data.len());
    let n = data.len();
    let mut out: Vec<u8> = Vec::new();
    let mut i: usize = 0;
    while i < n
        invariant
            i <= n,
            n == data@.len() == ks@.len(),
            out@.len() == i,
            forall|j: int| 0 <= j < i ==> out@[j] == (data@[j] ^ keystream_byte(
                key@,
                nonce@,
                offset + j,
            )),
            forall|j: int| 0 <= j < n ==> ks@[j] == keystream_byte(key@, nonce@, offset + j),
        decreases n - i,
    {
        out.push(data[i] ^ ks[i]);
        i = i + 1;
    }
    proof {
        assert(out@ =~= stream_xform(key@, nonce@, offset as int, data@));
    }
    out
}

/// The transform is an involution: transforming a range twice, at the same
/// position and under the same key and nonce, restores it byte for byte.
/// This is the heart of the round trip from plaintext to ciphertext and
/// back.
pub proof fn lemma_stream_xform_involutive(key: Seq<u8>, nonce: Seq<u8>, start: int, data: Seq<u8>)
    ensures
        stream_xform(key, nonce, start, stream_xform(key, nonce, start, data)) == data,
{
    let once = stream_xform(key, nonce, start, data);
    let twice = stream_xform(key, nonce, start, once);
    assert forall|i: int| 0 <= i < data.len() implies twice[i] == data[i] by {
        let d = data[i];
        let k = keystream_byte(key, nonce, start + i);
        assert((d ^ k) ^ k == d) by (bit_vector);
    }
    assert(twice =~= data);
}

} // verus!
