//! The correlation payload: opaque bytes a request carries out and the
//! matching callback hands back unchanged.
//!
//! The consumer stores the original caller's identity in the payload, since
//! the protocol keeps no local state between the request and the callback.
//! The framing is a four-byte big-endian length followed by the identity
//! bytes; anything else fails to decode.

use vstd::prelude::*;

use vstd::arithmetic::div_mod::{lemma_fundamental_div_mod, lemma_mod_mod, lemma_mod_pos_bound};

use crate::error::ContractError;
use crate::identity::Identity;

verus! {

/// The four big-endian base-256 digits of `n`.
pub open spec fn spec_be32(n: int) -> Seq<u8>
    recommends
        0 <= n <= u32::MAX,
{
    seq![
        (n / 0x1000000) as u8,
        ((n % 0x1000000) / 0x10000) as u8,
        ((n % 0x10000) / 0x100) as u8,
        (n % 0x100) as u8,
    ]
}

/// The number whose big-endian base-256 digits are the four bytes of `b`.
pub open spec fn spec_be32_val(b: Seq<u8>) -> int
    recommends
        b.len() == 4,
{
    b[0] * 0x1000000 + b[1] * 0x10000 + b[2] * 0x100 + b[3]
}

/// A payload encodes an identity as its length, big-endian in four bytes,
/// followed by its bytes.
pub open spec fn spec_encode_payload(id: Seq<u8>) -> Seq<u8>
    recommends
        id.len() <= u32::MAX,
{
    spec_be32(id.len() as int) + id
}

/// The identity a payload carries, when its framing is intact: at least four
/// bytes, and the leading length equal to the count of bytes that follow.
pub open spec fn spec_decode_payload(p: Seq<u8>) -> Option<Seq<u8>> {
    if p.len() >= 4 && spec_be32_val(p.take(4)) == p.len() - 4 {
        Some(p.skip(4))
    } else {
        None
    }
}

/// Recomposing the four big-endian digits of `n` gives back `n`.
proof fn lemma_be32_val_of_be32(n: int)
    requires
        0 <= n <= u32::MAX,
    ensures
        spec_be32(n).len() == 4,
        spec_be32_val(spec_be32(n)) == n,
{
    lemma_fundamental_div_mod(n, 0x1000000);
    lemma_mod_pos_bound(n, 0x1000000);
    lemma_fundamental_div_mod(n % 0x1000000, 0x10000);
    lemma_mod_pos_bound(n % 0x1000000, 0x10000);
    lemma_mod_mod(n, 0x10000, 0x100);
    assert((n % 0x1000000) % 0x10000 == n % 0x10000) by {
        lemma_mod_mod(n, 0x100, 0x10000);
    }
    lemma_fundamental_div_mod(n % 0x10000, 0x100);
    lemma_mod_pos_bound(n % 0x10000, 0x100);
    assert((n % 0x10000) % 0x100 == n % 0x100) by {
        lemma_mod_mod(n, 0x100, 0x100);
    }
}

/// The law of the correlation payload: decoding an encoded identity gives
/// that identity back, so the callback's payload resumes exactly the caller
/// the request was made for.
pub proof fn lemma_payload_round_trip(id: Seq<u8>)
    requires
        id.len() <= u32::MAX,
    ensures
        spec_decode_payload(spec_encode_payload(id)) == Some(id),
{
    let p = spec_encode_payload(id);
    lemma_be32_val_of_be32(id.len() as int);
    assert(p.take(4) =~= spec_be32(id.len() as int));
    assert(p.skip(4) =~= id);
}

/// Builds the payload that carries `caller` out to the oracle and back.
pub fn encode_payload(caller: &Identity) -> (p: Vec<u8>)
    requires
        caller@.len() <= u32::MAX,
    ensures
        p@ == spec_encode_payload(caller@),
{
    let n: u32 = caller.bytes.len() as u32;
    let mut p: Vec<u8> = Vec::new();
    p.push((n / 0x1000000) as u8);
    p.push(((n % 0x1000000) / 0x10000) as u8);
    p.push(((n % 0x10000) / 0x100) as u8);
    p.push((n % 0x100) as u8);
    let mut i: usize = 0;
    while i < caller.bytes.len()
        invariant
            0 <= i <= caller.bytes.len(),
            caller@.len() <= u32::MAX,
            n == caller@.len(),
            p@ =~= spec_be32(n as int) + caller@.take(i as int),
        decreases caller.bytes.len() - i,
    {
        p.push(caller.bytes[i]);
        i = i + 1;
    }
    proof {
        assert(p@ =~= spec_encode_payload(caller@));
    }
    p
}

/// Reads the caller identity back out of a callback's payload; fails with
/// `MalformedPayload` when the framing is broken.
pub fn decode_payload(payload: &Vec<u8>) -> (r: Result<Identity, ContractError>)
    ensures
        spec_decode_payload(payload@) matches Some(id) ==> (r matches Ok(c) && c@ == id),
        spec_decode_payload(payload@) is None ==> r == Err::<Identity, ContractError>(
            ContractError::MalformedPayload,
        ),
{
    if payload.len() < 4 {
        return Err(ContractError::MalformedPayload);
    }
    let n: u32 = (payload[0] as u32) * 0x1000000 + (payload[1] as u32) * 0x10000 + (payload[2]
        as u32) * 0x100 + (payload[3] as u32);
    proof {
        assert(payload@.take(4).len() == 4);
        assert(payload@.take(4)[0] == payload@[0]);
        assert(payload@.take(4)[1] == payload@[1]);
        assert(payload@.take(4)[2] == payload@[2]);
        assert(payload@.take(4)[3] == payload@[3]);
    }
    if (n as usize) != payload.len() - 4 {
        return Err(ContractError::MalformedPayload);
    }
    let mut bytes: Vec<u8> = Vec::new();
    let mut i: usize = 4;
    while i < payload.len()
        invariant
            4 <= i <= payload@.len(),
            bytes@ =~= payload@.subrange(4, i as int),
        decreases payload@.len() - i,
    {
        bytes.push(payload[i]);
        i = i + 1;
    }
    proof {
        assert(bytes@ =~= payload@.skip(4));
    }
    Ok(Identity { bytes })
}

} // verus!
