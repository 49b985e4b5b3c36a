//! Chunked processing of a body.
//!
//! A body of `L` bytes is cut into `ceil(L / C)` chunks of at most `C`
//! bytes, `C` being the memory budget; only the last chunk may be shorter.
//! Each chunk is transformed with the keystream at its own absolute offset
//! and the results are delivered strictly in index order, both to the output
//! and to the authenticator. Because every chunk's transform depends only on
//! its position, the bytes produced are the same for every chunk size and
//! for every worker count; a parallel dispatcher could only change the wall
//! clock, never the output, so this serialized core is the whole of the
//! observable behaviour.

use vstd::prelude::*;
use crate::auth::ChunkAuthenticator;
use crate::bytes;
use crate::cipher::{self, STREAM_LIMIT};
use crate::container;

verus! {

/// The chunk size a memory budget of `mem_bytes` allows: at least one byte
/// per chunk.
pub open spec fn chunk_size_of(mem_bytes: int) -> int {
    if mem_bytes < 1 {
        1
    } else {
        mem_bytes
    }
}

/// How many chunks a body of `len` bytes is cut into under chunk size `c`.
pub open spec fn spec_chunk_count(len: int, c: int) -> int
    recommends
        c >= 1,
{
    if len == 0 {
        0
    } else {
        (len - 1) / c + 1
    }
}

/// Chunk size as the memory budget allows it.
pub fn chunk_size(mem_bytes: usize) -> (r: usize)
    ensures
        r == chunk_size_of(mem_bytes as int),
        r >= 1,
{
    if mem_bytes == 0 {
        1
    } else {
        mem_bytes
    }
}

/// Number of chunks of a body of `len` bytes under chunk size `c`.
pub fn chunk_count(len: usize, c: usize) -> (r: usize)
    requires
        c >= 1,
    ensures
        r == spec_chunk_count(len as int, c as int),
{
    if len == 0 {
        0
    } else {
        (len - 1) / c + 1
    }
}

/// Encrypts a body chunk by chunk: chunk `i` holds bytes
/// `[i*c, min((i+1)*c, len))`, is transformed at its own offset, and the
/// ciphertext chunks are appended to the output and fed to the
/// authenticator in index order. The result is the keystream transform of
/// the whole body, independent of the chunk size.
pub fn encrypt_chunks(
    key: &Vec<u8>,
    nonce: &Vec<u8>,
    c: usize,
    data: &Vec<u8>,
    auth: &mut ChunkAuthenticator,
) -> (r: Vec<u8>)
    requires
        key@.len() == 32,
        nonce@.len() == 24,
        c >= 1,
        data@.len() <= STREAM_LIMIT,
        old(auth).wf(),
        old(auth).transcript().len() + data@.len() <= usize::MAX,
    ensures
        r@ == cipher::stream_xform(key@, nonce@, 0, data@),
        r@.len() == data@.len(),
        final(auth).wf(),
        final(auth).mac_key() == old(auth).mac_key(),
        final(auth).transcript() == old(auth).transcript() + r@,
{
    let n = data.len();
    let mut out: Vec<u8> = Vec::new();
    let mut off: usize = 0;
    while off < n
        invariant
            off <= n == data@.len(),
            n <= STREAM_LIMIT,
            key@.len() == 32,
            nonce@.len() == 24,
            c >= 1,
            out@.len() == off,
            forall|j: int| 0 <= j < off ==> out@[j] == (data@[j] ^ cipher::keystream_byte(
                key@,
                nonce@,
                j,
            )),
            auth.wf(),
            auth.mac_key() == old(auth).mac_key(),
            auth.transcript() == old(auth).transcript() + out@,
            old(auth).transcript().len() + n <= usize::MAX,
        decreases n - off,
    {
        let end: usize = if n - off < c {
            n
        } else {
            off + c
        };
        let chunk = bytes::copy_range(data, off, end);
        let sealed = cipher::apply_stream(key, nonce, off, &chunk);
        auth.update(&sealed);
        container::append_all(&mut out, &sealed);
        off = end;
    }
    proof {
        assert(out@ =~= cipher::stream_xform(key@, nonce@, 0, data@));
    }
    out
}

/// Decrypts a body chunk by chunk: the ciphertext chunks are fed to the
/// authenticator in index order before being transformed back. The result
/// is the keystream transform of the whole body and the transcript grows by
/// exactly the ciphertext, so the tag is computed over what was read, never
/// over what was produced.
pub fn decrypt_chunks(
    key: &Vec<u8>,
    nonce: &Vec<u8>,
    c: usize,
    data: &Vec<u8>,
    auth: &mut ChunkAuthenticator,
) -> (r: Vec<u8>)
    requires
        key@.len() == 32,
        nonce@.len() == 24,
        c >= 1,
        data@.len() <= STREAM_LIMIT,
        old(auth).wf(),
        old(auth).transcript().len() + data@.len() <= usize::MAX,
    ensures
        r@ == cipher::stream_xform(key@, nonce@, 0, data@),
        r@.len() == data@.len(),
        final(auth).wf(),
        final(auth).mac_key() == old(auth).mac_key(),
        final(auth).transcript() == old(auth).transcript() + data@,
{
    let n = data.len();
    let mut out: Vec<u8> = Vec::new();
    let mut off: usize = 0;
    while off < n
        invariant
            off <= n == data@.len(),
            n <= STREAM_LIMIT,
            key@.len() == 32,
            nonce@.len() == 24,
            c >= 1,
            out@.len() == off,
            forall|j: int| 0 <= j < off ==> out@[j] == (data@[j] ^ cipher::keystream_byte(
                key@,
                nonce@,
                j,
            )),
            auth.wf(),
            auth.mac_key() == old(auth).mac_key(),
            auth.transcript() == old(auth).transcript() + data@.subrange(0, off as int),
            old(auth).transcript().len() + n <= usize::MAX,
        decreases n - off,
    {
        let end: usize = if n - off < c {
            n
        } else {
            off + c
        };
        let chunk = bytes::copy_range(data, off, end);
        auth.update(&chunk);
        let opened = cipher::apply_stream(key, nonce, off, &chunk);
        container::append_all(&mut out, &opened);
        off = end;
        proof {
            assert(old(auth).transcript() + data@.subrange(0, off as int) =~= (old(
                auth,
            ).transcript() + data@.subrange(0, (off - chunk@.len()) as int)) + chunk@);
        }
    }
    proof {
        assert(data@.subrange(0, n as int) =~= data@);
        assert(out@ =~= cipher::stream_xform(key@, nonce@, 0, data@));
    }
    out
}

} // verus!
