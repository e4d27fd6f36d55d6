//! Units of time.

#![allow(non_camel_case_types)]

use vstd::prelude::*;

verus! {

/// Type for representing time in microseconds.
pub type pa_usec_t = u64;

/// The number of milliseconds in a second.
pub const PA_MSEC_PER_SEC: pa_usec_t = 1000;

/// The number of microseconds in a second.
pub const PA_USEC_PER_SEC: pa_usec_t = 1_000_000;

/// The number of nanoseconds in a second.
pub const PA_NSEC_PER_SEC: u64 = 1_000_000_000;

/// The number of microseconds in a millisecond.
pub const PA_USEC_PER_MSEC: pa_usec_t = 1000;

/// The number of nanoseconds in a millisecond.
pub const PA_NSEC_PER_MSEC: u64 = 1_000_000;

/// The number of nanoseconds in a microsecond.
pub const PA_NSEC_PER_USEC: u64 = 1000;

/// Invalid time. Microseconds value representing 'invalid'.
pub const PA_USEC_INVALID: pa_usec_t = 0xffff_ffff_ffff_ffff;

/// Largest valid time value in microseconds.
pub const PA_USEC_MAX: pa_usec_t = 0xffff_ffff_ffff_fffe;

} // verus!
