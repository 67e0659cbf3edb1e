//! BLS signatures over a pairing-friendly curve: the data model, the wire
//! layout, and every decision taken around the curve engine's primitives.
//!
//! The curve engine itself (field arithmetic, pairings, hash-to-curve, point
//! (de)serialization) is a native library reached through a foreign-function
//! boundary. This crate holds plain values only: an adapter performs each
//! engine call and hands the engine's raw reply to the functions here, which
//! decide what the caller gets back.
use vstd::prelude::*;

pub mod encoding;
pub mod error;
pub mod keys;
pub mod laws;
pub mod message;
pub mod params;
pub mod protocol;

pub use encoding::FieldWidths;
pub use error::BlsError;
pub use keys::{PublicKey, SecretKey, Signature};
pub use message::{Message, DOMAIN_SIZE, HASH_AND_DOMAIN_SIZE, HASH_SIZE};
pub use params::CurveType;

verus! {

} // verus!
