use sha2::Digest;
use vstd::prelude::*;

use crate::types::{Nonce, NONCE_LEN};

verus! {

/// The SHA-256 digest of a byte string.
pub uninterp spec fn sha256_of(data: Seq<u8>) -> Seq<u8>;

/// Relies on `sha2::Sha256::digest`: the SHA-256 digest of the bytes, which
/// depends on the bytes alone.
#[verifier::external_body]
fn sha256(data: &Vec<u8>) -> (r: [u8; 32])
    ensures
        r@ == sha256_of(data@),
{
    sha2::Sha256::digest(data.as_slice()).into()
}

/// What the instance root of trust hashes into the nonce that it hands to the
/// platform root of trust: the challenger's nonce, then the user data.
pub open spec fn inner_nonce_input(nonce: Seq<u8>, user_data: Seq<u8>) -> Seq<u8> {
    nonce + user_data
}

/// What a challenger hashes to reconstruct that nonce: the instance root of
/// trust's measurement log, then the nonce, then the user data.
pub open spec fn chained_digest_input(
    instance_log: Seq<u8>,
    nonce: Seq<u8>,
    user_data: Seq<u8>,
) -> Seq<u8> {
    instance_log + nonce + user_data
}

/// Appends `src` to `out`.
pub fn push_bytes(out: &mut Vec<u8>, src: &[u8])
    ensures
        final(out)@ == old(out)@ + src@,
{
    let mut i: usize = 0;
    while i < src.len()
        invariant
            i <= src@.len(),
            out@ == old(out)@ + src@.subrange(0, i as int),
        decreases src@.len() - i,
    {
        out.push(src[i]);
        i = i + 1;
        assert(out@ =~= old(out)@ + src@.subrange(0, i as int));
    }
    assert(src@.subrange(0, src@.len() as int) =~= src@);
}

/// The nonce that the instance root of trust hands to the platform root of
/// trust: SHA-256 of the challenger's nonce followed by the user data.
pub fn inner_nonce(nonce: &Nonce, user_data: &[u8]) -> (r: [u8; 32])
    ensures
        r@ == sha256_of(inner_nonce_input(nonce.0@, user_data@)),
{
    let mut msg = nonce.to_vec();
    push_bytes(&mut msg, user_data);
    sha256(&msg)
}

/// The digest that a challenger expects the platform root of trust to have
/// signed: SHA-256 of the instance log, the nonce and the user data, in that
/// order.
pub fn chained_digest(instance_log: &[u8], nonce: &Nonce, user_data: &[u8]) -> (r: [u8; 32])
    ensures
        r@ == sha256_of(chained_digest_input(instance_log@, nonce.0@, user_data@)),
{
    let mut msg: Vec<u8> = Vec::new();
    push_bytes(&mut msg, instance_log);
    let n = nonce.to_vec();
    push_bytes(&mut msg, n.as_slice());
    push_bytes(&mut msg, user_data);
    sha256(&msg)
}

/// The inner nonce is a function of the challenge: equal pairs of nonce and
/// user data give the same inner nonce, and distinct pairs are hashed from
/// distinct inputs, so they differ unless SHA-256 collides.
pub proof fn lemma_inner_nonce_deterministic_and_distinct(
    n1: Nonce,
    u1: Seq<u8>,
    n2: Nonce,
    u2: Seq<u8>,
)
    ensures
        (n1.0@ == n2.0@ && u1 == u2) ==> sha256_of(inner_nonce_input(n1.0@, u1)) == sha256_of(
            inner_nonce_input(n2.0@, u2),
        ),
        (n1.0@ != n2.0@ || u1 != u2) ==> inner_nonce_input(n1.0@, u1) != inner_nonce_input(
            n2.0@,
            u2,
        ),
{
    let a = inner_nonce_input(n1.0@, u1);
    let b = inner_nonce_input(n2.0@, u2);
    assert(n1.0@.len() == NONCE_LEN);
    assert(n2.0@.len() == NONCE_LEN);
    if a == b {
        assert(a.subrange(0, NONCE_LEN as int) =~= n1.0@);
        assert(b.subrange(0, NONCE_LEN as int) =~= n2.0@);
        assert(a.subrange(NONCE_LEN as int, a.len() as int) =~= u1);
        assert(b.subrange(NONCE_LEN as int, b.len() as int) =~= u2);
    }
}

} // verus!
