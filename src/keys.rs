//! Key material and signatures as the engine lays them out in memory.
use vstd::prelude::*;
use crate::params::{MCLBN_FP2_UNIT_SIZE, MCLBN_FP_UNIT_SIZE, MCLBN_FR_UNIT_SIZE};

verus! {

/// A scalar of the curve's scalar field, as little-endian machine words.
#[derive(Clone, Copy, Debug)]
pub struct SecretKey {
    d: [u64; MCLBN_FR_UNIT_SIZE],
}

/// A point of the first group, in projective coordinates over the base field.
#[derive(Clone, Copy, Debug)]
pub struct PublicKey {
    x: [u64; MCLBN_FP_UNIT_SIZE],
    y: [u64; MCLBN_FP_UNIT_SIZE],
    z: [u64; MCLBN_FP_UNIT_SIZE],
}

/// A point of the second group, in projective coordinates over the
/// quadratic extension field.
#[derive(Clone, Copy, Debug)]
pub struct Signature {
    x: [u64; MCLBN_FP2_UNIT_SIZE],
    y: [u64; MCLBN_FP2_UNIT_SIZE],
    z: [u64; MCLBN_FP2_UNIT_SIZE],
}

/// A sequence of `n` zero words.
pub open spec fn zero_words(n: nat) -> Seq<u64> {
    Seq::new(n, |i: int| 0u64)
}

impl SecretKey {
    /// The scalar's words, least significant first.
    pub closed spec fn words_spec(&self) -> Seq<u64> {
        self.d@
    }

    /// The all-zero scalar: a degenerate key the engine still accepts.
    pub fn zero() -> (r: SecretKey)
        ensures
            r.words_spec() == zero_words(MCLBN_FR_UNIT_SIZE as nat),
    {
        let r = SecretKey { d: [0u64; MCLBN_FR_UNIT_SIZE] };
        assert(r.d@ =~= zero_words(MCLBN_FR_UNIT_SIZE as nat));
        r
    }

    /// The key holding the given words, least significant first.
    pub fn from_words(d: [u64; MCLBN_FR_UNIT_SIZE]) -> (r: SecretKey)
        ensures
            r.words_spec() == d@,
    {
        SecretKey { d }
    }

    /// The key's words, least significant first.
    pub fn words(&self) -> (r: [u64; MCLBN_FR_UNIT_SIZE])
        ensures
            r@ == self.words_spec(),
    {
        self.d
    }
}

impl PublicKey {
    /// The point's projective coordinates.
    pub closed spec fn coords_spec(&self) -> (Seq<u64>, Seq<u64>, Seq<u64>) {
        (self.x@, self.y@, self.z@)
    }

    /// The point whose coordinates are all zero words.
    pub fn zero() -> (r: PublicKey)
        ensures
            r.coords_spec() == (
                zero_words(MCLBN_FP_UNIT_SIZE as nat),
                zero_words(MCLBN_FP_UNIT_SIZE as nat),
                zero_words(MCLBN_FP_UNIT_SIZE as nat),
            ),
    {
        let r = PublicKey {
            x: [0u64; MCLBN_FP_UNIT_SIZE],
            y: [0u64; MCLBN_FP_UNIT_SIZE],
            z: [0u64; MCLBN_FP_UNIT_SIZE],
        };
        assert(r.x@ =~= zero_words(MCLBN_FP_UNIT_SIZE as nat));
        r
    }

    /// The point with the given projective coordinates.
    pub fn from_coords(
        x: [u64; MCLBN_FP_UNIT_SIZE],
        y: [u64; MCLBN_FP_UNIT_SIZE],
        z: [u64; MCLBN_FP_UNIT_SIZE],
    ) -> (r: PublicKey)
        ensures
            r.coords_spec() == (x@, y@, z@),
    {
        PublicKey { x, y, z }
    }

    /// The point's projective coordinates.
    pub fn coords(&self) -> (r: (
        [u64; MCLBN_FP_UNIT_SIZE],
        [u64; MCLBN_FP_UNIT_SIZE],
        [u64; MCLBN_FP_UNIT_SIZE],
    ))
        ensures
            (r.0@, r.1@, r.2@) == self.coords_spec(),
    {
        (self.x, self.y, self.z)
    }
}

impl Signature {
    /// The point's projective coordinates.
    pub closed spec fn coords_spec(&self) -> (Seq<u64>, Seq<u64>, Seq<u64>) {
        (self.x@, self.y@, self.z@)
    }

    /// The point whose coordinates are all zero words.
    pub fn zero() -> (r: Signature)
        ensures
            r.coords_spec() == (
                zero_words(MCLBN_FP2_UNIT_SIZE as nat),
                zero_words(MCLBN_FP2_UNIT_SIZE as nat),
                zero_words(MCLBN_FP2_UNIT_SIZE as nat),
            ),
    {
        let r = Signature {
            x: [0u64; MCLBN_FP2_UNIT_SIZE],
            y: [0u64; MCLBN_FP2_UNIT_SIZE],
            z: [0u64; MCLBN_FP2_UNIT_SIZE],
        };
        assert(r.x@ =~= zero_words(MCLBN_FP2_UNIT_SIZE as nat));
        r
    }

    /// The point with the given projective coordinates.
    pub fn from_coords(
        x: [u64; MCLBN_FP2_UNIT_SIZE],
        y: [u64; MCLBN_FP2_UNIT_SIZE],
        z: [u64; MCLBN_FP2_UNIT_SIZE],
    ) -> (r: Signature)
        ensures
            r.coords_spec() == (x@, y@, z@),
    {
        Signature { x, y, z }
    }

    /// The point's projective coordinates.
    pub fn coords(&self) -> (r: (
        [u64; MCLBN_FP2_UNIT_SIZE],
        [u64; MCLBN_FP2_UNIT_SIZE],
        [u64; MCLBN_FP2_UNIT_SIZE],
    ))
        ensures
            (r.0@, r.1@, r.2@) == self.coords_spec(),
    {
        (self.x, self.y, self.z)
    }
}

} // verus!
