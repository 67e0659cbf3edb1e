//! Curve parameters and domain initialization.
use vstd::prelude::*;

verus! {

/// Machine words in a base-field element, as the engine was compiled.
pub const MCLBN_FP_UNIT_SIZE: usize = 6;

/// Machine words in a scalar-field element, as the engine was compiled.
pub const MCLBN_FR_UNIT_SIZE: usize = 4;

/// Machine words in an element of the quadratic extension field.
pub const MCLBN_FP2_UNIT_SIZE: usize = MCLBN_FP_UNIT_SIZE * 2;

/// Offset the engine adds to its compiled-configuration tag.
pub const BLS_COMPILER_TIME_VAR_ADJ: usize = 200;

/// The tag that tells the engine which field-unit sizes this build expects.
pub const MCLBN_COMPILED_TIME_VAR: usize =
    MCLBN_FR_UNIT_SIZE * 10 + MCLBN_FP_UNIT_SIZE + BLS_COMPILER_TIME_VAR_ADJ;

/// The curve families the engine can be initialized with.
#[derive(Clone, Copy, Debug, PartialEq, Eq, Structural)]
pub enum CurveType {
    BN254,
    BN381,
    SNARK,
    BLS12_381,
}

/// The engine's numeric identifier of each curve family.
pub open spec fn curve_code(c: CurveType) -> i32 {
    match c {
        CurveType::BN254 => 0,
        CurveType::BN381 => 1,
        CurveType::SNARK => 4,
        CurveType::BLS12_381 => 5,
    }
}

impl CurveType {
    /// The identifier under which the engine knows this curve family.
    pub fn code(&self) -> (r: i32)
        ensures
            r == curve_code(*self),
    {
        match self {
            CurveType::BN254 => 0,
            CurveType::BN381 => 1,
            CurveType::SNARK => 4,
            CurveType::BLS12_381 => 5,
        }
    }
}

/// Whether the engine's initialization reply reports success: it answers
/// zero when the curve and the compiled configuration were accepted.
pub fn init_succeeded(status: i32) -> (r: bool)
    ensures
        r == (status == 0),
{
    status == 0
}

} // verus!
