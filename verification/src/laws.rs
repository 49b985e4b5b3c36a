//! The engine's general laws, proved once and for all inputs.
//!
//! Laws that would need cryptographic assumptions — that the keyed digest
//! never collides, or that two passwords never derive the same key — are
//! stated with the non-collision of the affected tags as an explicit
//! hypothesis, since the model treats the primitives as arbitrary pure
//! functions.

use vstd::prelude::*;
use crate::auth::tag_of;
use crate::cipher;
use crate::container::{container_body, container_salt, container_tag, HEADER_LEN};
use crate::engine::{box_spec, unbox_auth_ok, unbox_plain};
use crate::kdf::{derived_secret, key_part, mac_part, nonce_part, SALT_LEN};

verus! {

/// A boxed container is exactly its three fields: the tag of the body, the
/// salt it was boxed with, and the transformed plaintext, in that order.
pub proof fn lemma_box_fields(p: Seq<u8>, w: Seq<u8>, salt: Seq<u8>, kdf_cost: int)
    requires
        salt.len() == SALT_LEN,
    ensures
        ({
            let c = box_spec(p, w, salt, kdf_cost);
            let secret = derived_secret(w, salt, kdf_cost);
            &&& c.len() == HEADER_LEN + p.len()
            &&& container_salt(c) == salt
            &&& container_body(c) == cipher::stream_xform(
                key_part(secret),
                nonce_part(secret),
                0,
                p,
            )
            &&& container_tag(c) == tag_of(mac_part(secret), container_body(c))
        }),
{
    let c = box_spec(p, w, salt, kdf_cost);
    let secret = derived_secret(w, salt, kdf_cost);
    let body = cipher::stream_xform(key_part(secret), nonce_part(secret), 0, p);
    let tag = tag_of(mac_part(secret), body);
    assert(container_tag(c) =~= tag);
    assert(container_salt(c) =~= salt);
    assert(container_body(c) =~= body);
}

/// Round trip: a container boxed from plaintext `p` under password `w`
/// authenticates under `w`, and unboxing it recovers `p` byte for byte.
pub proof fn lemma_round_trip(p: Seq<u8>, w: Seq<u8>, salt: Seq<u8>, kdf_cost: int)
    requires
        salt.len() == SALT_LEN,
    ensures
        unbox_auth_ok(box_spec(p, w, salt, kdf_cost), w, kdf_cost),
        unbox_plain(box_spec(p, w, salt, kdf_cost), w, kdf_cost) == p,
{
    let c = box_spec(p, w, salt, kdf_cost);
    let secret = derived_secret(w, salt, kdf_cost);
    lemma_box_fields(p, w, salt, kdf_cost);
    cipher::lemma_stream_xform_involutive(key_part(secret), nonce_part(secret), 0, p);
}

/// Tamper detection, tag side: any container that keeps a boxed container's
/// salt and body but differs anywhere in the stored tag — a single flipped
/// bit included — fails authentication under the boxing password.
pub proof fn lemma_tag_tamper_detected(
    p: Seq<u8>,
    w: Seq<u8>,
    salt: Seq<u8>,
    kdf_cost: int,
    tampered: Seq<u8>,
)
    requires
        salt.len() == SALT_LEN,
    ensures
        ({
            let c = box_spec(p, w, salt, kdf_cost);
            (container_salt(tampered) == container_salt(c) && container_body(tampered)
                == container_body(c) && container_tag(tampered) != container_tag(c))
                ==> !unbox_auth_ok(tampered, w, kdf_cost)
        }),
{
    lemma_box_fields(p, w, salt, kdf_cost);
}

/// Tamper detection, body side: a container that keeps a boxed container's
/// salt and tag but whose body's digest differs from the genuine body's
/// digest fails authentication. A body change escapes this only by a digest
/// collision, which the model neither assumes nor rules out.
pub proof fn lemma_body_tamper_detected(
    p: Seq<u8>,
    w: Seq<u8>,
    salt: Seq<u8>,
    kdf_cost: int,
    tampered: Seq<u8>,
)
    requires
        salt.len() == SALT_LEN,
    ensures
        ({
            let c = box_spec(p, w, salt, kdf_cost);
            let mac_key = mac_part(derived_secret(w, salt, kdf_cost));
            (container_salt(tampered) == container_salt(c) && container_tag(tampered)
                == container_tag(c) && tag_of(mac_key, container_body(tampered)) != tag_of(
                mac_key,
                container_body(c),
            )) ==> !unbox_auth_ok(tampered, w, kdf_cost)
        }),
{
    lemma_box_fields(p, w, salt, kdf_cost);
}

/// Wrong password: unboxing a container with a password whose derived MAC
/// key does not reproduce the stored tag fails authentication — and, by the
/// unboxing contract, fails with an authentication error rather than
/// anything lower-level. Two passwords evade this only by deriving keys
/// whose digests of the body collide, which the model neither assumes nor
/// rules out.
pub proof fn lemma_wrong_password_detected(
    p: Seq<u8>,
    w: Seq<u8>,
    other: Seq<u8>,
    salt: Seq<u8>,
    kdf_cost: int,
)
    requires
        salt.len() == SALT_LEN,
    ensures
        ({
            let c = box_spec(p, w, salt, kdf_cost);
            let foreign_mac = mac_part(derived_secret(other, salt, kdf_cost));
            tag_of(foreign_mac, container_body(c)) != container_tag(c) ==> !unbox_auth_ok(
                c,
                other,
                kdf_cost,
            )
        }),
{
    lemma_box_fields(p, w, salt, kdf_cost);
}

/// Determinism of key derivation: equal passwords, salts and costs derive
/// equal secrets — the derived bytes are a function of those three inputs
/// and of nothing else, which is what lets unboxing reproduce the boxing
/// keys from the stored salt.
pub proof fn lemma_derivation_deterministic(
    w1: Seq<u8>,
    salt1: Seq<u8>,
    cost1: int,
    w2: Seq<u8>,
    salt2: Seq<u8>,
    cost2: int,
)
    requires
        w1 == w2,
        salt1 == salt2,
        cost1 == cost2,
    ensures
        derived_secret(w1, salt1, cost1) == derived_secret(w2, salt2, cost2),
{
}

} // verus!
