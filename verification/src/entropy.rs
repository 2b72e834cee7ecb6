//! The entropy source: a sixteen-byte value derived from the chain's random
//! seed, the caller and the position of the call in its block.

use crate::account::AccountId;
use parity_scale_codec::Encode;
use vstd::prelude::*;

verus! {

/// What the host hands to a transition for its one draw of entropy.
#[derive(Clone, Copy, Debug, PartialEq, Eq)]
pub struct Entropy {
    /// The chain's current random seed.
    pub seed: [u8; 32],
    /// The block since which that seed could be known.
    pub seed_block: u32,
    /// The position of the running call in its block, if the host counts one.
    pub extrinsic_index: Option<u32>,
}

/// The four bytes of `x`, lowest first.
pub open spec fn le_bytes(x: u32) -> Seq<u8> {
    seq![
        (x % 256) as u8,
        (x / 256 % 256) as u8,
        (x / 65536 % 256) as u8,
        (x / 16777216) as u8,
    ]
}

/// The bytes of an optional index: a zero byte for none, else a one byte and
/// the index, lowest byte first.
pub open spec fn index_bytes(index: Option<u32>) -> Seq<u8> {
    match index {
        None => seq![0u8],
        Some(i) => seq![1u8] + le_bytes(i),
    }
}

/// The bytes that are hashed for a draw: seed, seed block, sender, index.
pub open spec fn payload(entropy: Entropy, sender: Seq<u8>) -> Seq<u8> {
    entropy.seed@ + le_bytes(entropy.seed_block) + sender + index_bytes(entropy.extrinsic_index)
}

/// The 128-bit Blake2b digest of `data`.
pub uninterp spec fn blake2_128_digest(data: Seq<u8>) -> Seq<u8>;

/// The value drawn for `sender` from `entropy`: the digest of the payload.
pub open spec fn drawn(entropy: Entropy, sender: Seq<u8>) -> Seq<u8> {
    blake2_128_digest(payload(entropy, sender))
}

/// Calls `parity_scale_codec::Encode::encode` on the tuple of the seed with
/// its block, the sender and the index. Trusted: that the codec writes the
/// members of a tuple one after the other, a byte array as its bytes, a
/// `u32` as four bytes lowest first, a reference as what it points to, and
/// an `Option` as a zero byte, or a one byte and then the value.
#[verifier::external_body]
pub(crate) fn encode_payload(entropy: &Entropy, sender: &AccountId) -> (bytes: Vec<u8>)
    ensures
        bytes@ == payload(*entropy, sender@),
{
    ((entropy.seed, entropy.seed_block), &sender.0, entropy.extrinsic_index).encode()
}

/// Calls `sp_io::hashing::blake2_128`. Trusted: that the sixteen bytes it
/// returns depend on the bytes of `data` alone.
#[verifier::external_body]
pub(crate) fn blake2_128(data: &[u8]) -> (digest: [u8; 16])
    ensures
        digest@ == blake2_128_digest(data@),
{
    sp_io::hashing::blake2_128(data)
}

} // verus!
