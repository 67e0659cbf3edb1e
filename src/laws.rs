//! Laws that relate several of the library's functions.
use vstd::prelude::*;
use crate::encoding::{decode_result, finished};
use crate::error::BlsError;
use crate::keys::PublicKey;
use crate::message::Message;
use crate::protocol::{aggregate_request, aggregate_verdict_of};

verus! {

/// An aggregate check over sequences of public keys and messages of
/// different lengths does not ask the engine, and does not verify.
pub proof fn lemma_aggregate_length_mismatch(pubkeys: Seq<PublicKey>, msgs: Seq<Message>)
    requires
        pubkeys.len() != msgs.len(),
    ensures
        aggregate_request(pubkeys, msgs) is None,
        !aggregate_verdict_of(None),
{
}

/// An encoding whose length differs from the type's canonical width is
/// rejected with `InvalidData`, whatever the engine read of it.
pub proof fn lemma_wrong_length_rejected<T>(value: T, buf_len: nat, width: nat, consumed: nat)
    requires
        buf_len != width,
    ensures
        decode_result(value, buf_len, width, consumed) == Err::<T, BlsError>(BlsError::InvalidData),
{
}

/// The framing half of the round trip: when the engine writes exactly the
/// canonical width into a buffer that holds it, the bytes handed back are
/// accepted on reading back, provided the engine reads all of them, and the
/// value it wrote is returned.
pub proof fn lemma_read_back_accepted<T>(value: T, buf: Seq<u8>, width: nat)
    requires
        0 < width <= buf.len(),
    ensures
        finished(buf, width) matches Some(out) && out.len() == width
            && decode_result(value, out.len(), width, out.len()) == Ok::<T, BlsError>(value),
{
}

} // verus!
