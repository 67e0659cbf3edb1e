//! The signature protocol: what each engine reply means for the caller.
//!
//! The engine answers signing with a status (zero on success), hex parsing
//! with a positive count on success, and verification or comparison with one
//! when the answer is yes.
use vstd::prelude::*;
use crate::error::BlsError;
use crate::keys::{PublicKey, SecretKey, Signature};
use crate::message::Message;

verus! {

/// An engine yes/no reply that means yes.
pub open spec fn affirms(status: i32) -> bool {
    status == 1
}

/// Whether a verification or equality reply of the engine means yes.
pub fn affirmed(status: i32) -> (r: bool)
    ensures
        r == affirms(status),
{
    status == 1
}

/// What the caller of signing gets, given the point the engine wrote and
/// the status it returned.
pub open spec fn sign_result(sig: Signature, status: i32) -> Result<Signature, BlsError> {
    if status == 0 {
        Ok(sig)
    } else {
        Err(BlsError::InternalError)
    }
}

/// What the caller of hex parsing gets, given the key the engine wrote and
/// its reply.
pub open spec fn hex_result(key: SecretKey, read: i32) -> Result<SecretKey, BlsError> {
    if read > 0 {
        Ok(key)
    } else {
        Err(BlsError::InvalidData)
    }
}

impl SecretKey {
    /// Whether the engine's reply to hex parsing reports a parsed scalar.
    pub fn hex_accepted(read: i32) -> (r: bool)
        ensures
            r == (read > 0),
    {
        read > 0
    }

    /// The result of parsing a key from hex: the key the engine wrote when
    /// its reply reports success, `InvalidData` otherwise.
    pub fn hex_outcome(key: SecretKey, read: i32) -> (r: Result<SecretKey, BlsError>)
        ensures
            r == hex_result(key, read),
    {
        if SecretKey::hex_accepted(read) {
            Ok(key)
        } else {
            Err(BlsError::InvalidData)
        }
    }

    /// The result of signing: the point the engine wrote when it reports
    /// success, `InternalError` otherwise.
    pub fn sign_outcome(sig: Signature, status: i32) -> (r: Result<Signature, BlsError>)
        ensures
            r == sign_result(sig, status),
    {
        if status == 0 {
            Ok(sig)
        } else {
            Err(BlsError::InternalError)
        }
    }
}

/// The number of pairs an aggregate check hands the engine, if any.
pub open spec fn aggregate_request(pubkeys: Seq<PublicKey>, msgs: Seq<Message>) -> Option<nat> {
    if pubkeys.len() == msgs.len() {
        Some(pubkeys.len())
    } else {
        None
    }
}

/// The verdict of an aggregate check, given the engine's reply if it was asked.
pub open spec fn aggregate_verdict_of(reply: Option<i32>) -> bool {
    reply matches Some(s) && affirms(s)
}

impl Signature {
    /// How many (public key, message) pairs to hand the engine for an
    /// aggregate check, or `None` when the two sequences differ in length:
    /// such input does not verify, and the engine is not asked.
    pub fn aggregate_count(pubkeys: &[PublicKey], msgs: &[Message]) -> (r: Option<usize>)
        ensures
            r matches Some(n) ==> aggregate_request(pubkeys@, msgs@) == Some(n as nat),
            r is None ==> aggregate_request(pubkeys@, msgs@) is None,
    {
        let n = pubkeys.len();
        if msgs.len() != n {
            None
        } else {
            Some(n)
        }
    }

    /// The verdict of an aggregate check: false without an engine reply
    /// (the sequences differed in length), else whether the reply affirms.
    pub fn aggregate_verdict(status: Option<i32>) -> (r: bool)
        ensures
            r == aggregate_verdict_of(status),
    {
        match status {
            Some(s) => affirmed(s),
            None => false,
        }
    }
}

} // verus!
