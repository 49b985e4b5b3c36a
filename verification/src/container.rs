//! The on-disk container format.
//!
//! A container is a fixed 80-byte header — the 64-byte authentication tag
//! followed by the 16-byte key-derivation salt — and then the ciphertext
//! body, which is exactly as long as the plaintext. The header is written
//! only after the whole body exists; a file shorter than the header is
//! rejected before anything else is looked at.

use vstd::prelude::*;
use crate::auth::TAG_LEN;
use crate::bytes;
use crate::errors::ContainerError;
use crate::kdf::SALT_LEN;

verus! {

/// Offset of the body: the header holds the tag and then the salt.
pub const HEADER_LEN: usize = 80;

/// The stored tag: bytes `[0, 64)` of a container.
pub open spec fn container_tag(c: Seq<u8>) -> Seq<u8> {
    c.subrange(0, TAG_LEN as int)
}

/// The stored salt: bytes `[64, 80)` of a container.
pub open spec fn container_salt(c: Seq<u8>) -> Seq<u8> {
    c.subrange(TAG_LEN as int, HEADER_LEN as int)
}

/// The ciphertext body: everything after the header.
pub open spec fn container_body(c: Seq<u8>) -> Seq<u8> {
    c.subrange(HEADER_LEN as int, c.len() as int)
}

/// Assembles a container from its three fields.
pub fn encode_container(tag: &Vec<u8>, salt: &Vec<u8>, body: &Vec<u8>) -> (r: Vec<u8>)
    requires
        tag@.len() == TAG_LEN,
        salt@.len() == SALT_LEN,
        body@.len() + HEADER_LEN <= usize::MAX,
    ensures
        r@ == tag@ + salt@ + body@,
        r@.len() == HEADER_LEN + body@.len(),
        container_tag(r@) == tag@,
        container_salt(r@) == salt@,
        container_body(r@) == body@,
{
    let mut out: Vec<u8> = Vec::new();
    append_all(&mut out, tag);
    append_all(&mut out, salt);
    append_all(&mut out, body);
    proof {
        assert(out@ =~= tag@ + salt@ + body@);
        assert(container_tag(out@) =~= tag@);
        assert(container_salt(out@) =~= salt@);
        assert(container_body(out@) =~= body@);
    }
    out
}

/// Appends every byte of `src` to `dst`.
pub fn append_all(dst: &mut Vec<u8>, src: &Vec<u8>)
    requires
        old(dst)@.len() + src@.len() <= usize::MAX,
    ensures
        final(dst)@ == old(dst)@ + src@,
{
    let n = src.len();
    let mut i: usize = 0;
    while i < n
        invariant
            i <= n == src@.len(),
            old(dst)@.len() + n <= usize::MAX,
            dst@ == old(dst)@ + src@.subrange(0, i as int),
        decreases n - i,
    {
        dst.push(src[i]);
        i = i + 1;
        proof {
            assert(dst@ =~= old(dst)@ + src@.subrange(0, i as int));
        }
    }
    proof {
        assert(src@.subrange(0, n as int) =~= src@);
    }
}

/// Reads the stored tag and salt. A container shorter than the header is
/// rejected as truncated, and nothing else of it is examined.
pub fn read_header(c: &Vec<u8>) -> (r: Result<(Vec<u8>, Vec<u8>), ContainerError>)
    ensures
        c@.len() < HEADER_LEN <==> r == Err::<(Vec<u8>, Vec<u8>), _>(ContainerError::Truncated),
        r matches Ok((tag, salt)) ==> tag@ == container_tag(c@) && salt@ == container_salt(c@),
{
    if c.len() < HEADER_LEN {
        return Err(ContainerError::Truncated);
    }
    let tag = bytes::copy_range(c, 0, TAG_LEN);
    let salt = bytes::copy_range(c, TAG_LEN, HEADER_LEN);
    Ok((tag, salt))
}

/// Reads the ciphertext body that follows the header.
pub fn read_body(c: &Vec<u8>) -> (r: Result<Vec<u8>, ContainerError>)
    ensures
        c@.len() < HEADER_LEN <==> r == Err::<Vec<u8>, _>(ContainerError::Truncated),
        r matches Ok(body) ==> body@ == container_body(c@),
{
    if c.len() < HEADER_LEN {
        return Err(ContainerError::Truncated);
    }
    Ok(bytes::copy_range(c, HEADER_LEN, c.len()))
}

} // verus!
