use vstd::prelude::*;

verus! {

/// The timestamp value FFmpeg uses for "no timestamp" (`AV_NOPTS_VALUE`).
pub const NOPTS_VALUE: i64 = -9223372036854775808i64;

/// FFmpeg's internal time base, in units per second (`AV_TIME_BASE`).
pub const TIME_BASE: i64 = 1000000i64;

/// Largest value of a signed 64-bit timestamp (`INT64_MAX`).
pub const INT64_MAX: i64 = 9223372036854775807i64;

} // verus!
