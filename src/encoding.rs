//! The serialization layer: canonical widths, framing of what the engine
//! writes, acceptance of what it reads back, and the message wire layout.
use vstd::prelude::*;
use crate::error::BlsError;
use crate::keys::{PublicKey, SecretKey, Signature};
use crate::message::{message_bytes, Message, HASH_AND_DOMAIN_SIZE};

verus! {

/// The canonical byte widths of the engine's fields, as it reports them
/// once the domain is initialized.
#[derive(Clone, Copy, Debug)]
pub struct FieldWidths {
    /// Bytes of a scalar-field element.
    pub fr_bytes: u32,
    /// Bytes of a base-field element.
    pub fp_bytes: u32,
}

impl SecretKey {
    /// Bytes of a serialized secret key: one scalar-field element.
    pub fn encoded_len(w: &FieldWidths) -> (r: u64)
        ensures
            r == w.fr_bytes,
    {
        w.fr_bytes as u64
    }
}

impl PublicKey {
    /// Bytes of a serialized public key: one base-field element.
    pub fn encoded_len(w: &FieldWidths) -> (r: u64)
        ensures
            r == w.fp_bytes,
    {
        w.fp_bytes as u64
    }
}

impl Signature {
    /// Bytes of a serialized signature: two base-field elements.
    pub fn encoded_len(w: &FieldWidths) -> (r: u64)
        ensures
            r == 2 * w.fp_bytes,
    {
        2 * (w.fp_bytes as u64)
    }
}

/// The bytes a serialization hands back, given the engine's buffer and
/// how many bytes it reports written.
pub open spec fn finished(buf: Seq<u8>, written: nat) -> Option<Seq<u8>> {
    if 0 < written <= buf.len() {
        Some(buf.subrange(0, written as int))
    } else {
        None
    }
}

/// The bytes a serialization hands back: the first `written` bytes of the
/// engine's buffer, when the engine wrote some and no more than the buffer
/// holds; `None` otherwise, which means the engine is unusable.
pub fn finish_encoding(buf: Vec<u8>, written: usize) -> (r: Option<Vec<u8>>)
    ensures
        r matches Some(out) ==> finished(buf@, written as nat) == Some(out@),
        r is None ==> finished(buf@, written as nat) is None,
{
    if written == 0 || written > buf.len() {
        None
    } else {
        let mut out = buf;
        out.truncate(written);
        Some(out)
    }
}

/// Whether an encoding is accepted: it has exactly the canonical width,
/// and the engine read all of it back.
pub open spec fn accepts(buf_len: nat, width: nat, consumed: nat) -> bool {
    buf_len == width && consumed == width && width > 0
}

/// Whether the engine's reading of a `buf_len`-byte encoding, of which it
/// consumed `consumed` bytes, yields a value for a type of width `width`.
pub fn accepts_encoding(buf_len: usize, width: u64, consumed: usize) -> (r: bool)
    ensures
        r == accepts(buf_len as nat, width as nat, consumed as nat),
{
    buf_len as u64 == width && consumed as u64 == width && width > 0
}

/// What deserializing hands back, given the value the engine wrote.
pub open spec fn decode_result<T>(value: T, buf_len: nat, width: nat, consumed: nat) -> Result<
    T,
    BlsError,
> {
    if accepts(buf_len, width, consumed) {
        Ok(value)
    } else {
        Err(BlsError::InvalidData)
    }
}

/// The result of deserializing: the value the engine wrote when the
/// encoding is accepted, `InvalidData` otherwise.
pub fn decode_outcome<T>(value: T, buf_len: usize, width: u64, consumed: usize) -> (r: Result<
    T,
    BlsError,
>)
    ensures
        r == decode_result(value, buf_len as nat, width as nat, consumed as nat),
{
    if accepts_encoding(buf_len, width, consumed) {
        Ok(value)
    } else {
        Err(BlsError::InvalidData)
    }
}

impl Message {
    /// The message as the engine reads it: the hash, then the domain tag.
    pub fn to_bytes(&self) -> (r: Vec<u8>)
        ensures
            r@ == message_bytes(*self),
    {
        let mut r: Vec<u8> = Vec::with_capacity(HASH_AND_DOMAIN_SIZE);
        r.extend_from_slice(self.hash.as_slice());
        r.extend_from_slice(self.domain.as_slice());
        assert(r@ =~= message_bytes(*self));
        r
    }
}

/// The engine's layout of a run of messages: each message's bytes in turn.
pub open spec fn messages_bytes(msgs: Seq<Message>) -> Seq<u8>
    decreases msgs.len(),
{
    if msgs.len() == 0 {
        Seq::empty()
    } else {
        messages_bytes(msgs.drop_last()) + message_bytes(msgs.last())
    }
}

/// The contiguous bytes of a run of messages, as an aggregate check reads them.
pub fn concat_messages(msgs: &[Message]) -> (r: Vec<u8>)
    ensures
        r@ == messages_bytes(msgs@),
{
    let mut r: Vec<u8> = Vec::new();
    let mut i: usize = 0;
    while i < msgs.len()
        invariant
            i <= msgs@.len(),
            r@ == messages_bytes(msgs@.subrange(0, i as int)),
        decreases msgs@.len() - i,
    {
        let mut b = msgs[i].to_bytes();
        r.append(&mut b);
        proof {
            let s = msgs@.subrange(0, i + 1);
            assert(s.drop_last() =~= msgs@.subrange(0, i as int));
            assert(s.last() == msgs@[i as int]);
        }
        i = i + 1;
    }
    assert(msgs@.subrange(0, msgs@.len() as int) =~= msgs@);
    r
}

} // verus!
