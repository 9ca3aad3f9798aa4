//! Product constants shared by policy and validation.

use vstd::prelude::*;


verus! {

/// The default requested VMAF target.
pub const DEFAULT_VMAF_TARGET: u8 = 95u8;
/// The lowest target a fallback search descends to by default.
pub const MIN_VMAF_FALLBACK_TARGET: u8 = 90u8;
pub const VMAF_FALLBACK_STEP: u8 = 1u8;
pub const DEFAULT_ENCODING_PRESET: u8 = 6u8;
pub const DEFAULT_MAX_ENCODED_PERCENT_BASIS_POINTS: u32 = 8_000u32;
pub const DEFAULT_SAMPLE_DURATION_MS: u64 = 20_000u64;

/// Import sources may have recorded modification times at seconds
/// precision; matching a parked record against a real file tolerates one
/// second of drift.
pub const IMPORT_MTIME_TOLERANCE_NS: u64 = 1_000_000_000u64;

pub const CRF_FIXED_SCALE: u32 = 1_000u32;
pub const VMAF_SCORE_FIXED_SCALE: u16 = 100u16;
pub const MAX_VMAF_SCORE: u16 = 100u16;
pub const PERCENT_BASIS_POINTS_SCALE: u32 = 100u32;
pub const MAX_PERCENT_BASIS_POINTS: u32 = 10_000u32;
pub const MAX_ENCODING_PRESET: u8 = 13u8;

} // verus!
