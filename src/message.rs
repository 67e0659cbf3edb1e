//! The message model: a pre-hashed message followed by a domain tag.
use vstd::prelude::*;

verus! {

/// Width of the pre-hashed application message, in bytes.
pub const HASH_SIZE: usize = 32;

/// Width of the domain-separation tag, in bytes.
pub const DOMAIN_SIZE: usize = 8;

/// Width of a whole message as the engine reads it.
pub const HASH_AND_DOMAIN_SIZE: usize = HASH_SIZE + DOMAIN_SIZE;

/// The input to signing and verification: a 32-byte hash followed by an
/// 8-byte domain tag. Hashing the application data is the caller's business.
#[derive(Clone, Copy, Debug)]
pub struct Message {
    pub hash: [u8; HASH_SIZE],
    pub domain: [u8; DOMAIN_SIZE],
}

/// The 40 bytes the engine reads for a message: the hash, then the domain tag.
pub open spec fn message_bytes(m: Message) -> Seq<u8> {
    m.hash@ + m.domain@
}

/// A sequence of `n` zero bytes.
pub open spec fn zeros(n: nat) -> Seq<u8> {
    Seq::new(n, |i: int| 0u8)
}

impl Message {
    /// The message whose hash and domain tag are all zero bytes.
    pub fn zero() -> (r: Message)
        ensures
            r.hash@ == zeros(HASH_SIZE as nat),
            r.domain@ == zeros(DOMAIN_SIZE as nat),
    {
        let r = Message { hash: [0u8; HASH_SIZE], domain: [0u8; DOMAIN_SIZE] };
        assert(r.hash@ =~= zeros(HASH_SIZE as nat));
        assert(r.domain@ =~= zeros(DOMAIN_SIZE as nat));
        r
    }
}

} // verus!
