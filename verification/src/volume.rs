//! Constants and routines for volume handling.

#![allow(non_camel_case_types)]

use vstd::prelude::*;

verus! {

/// The basic volume type.
pub type pa_volume_t = u32;

/// Normal volume (100%, 0 dB).
pub const PA_VOLUME_NORM: pa_volume_t = 0x10000;

/// Muted (minimal valid) volume (0%, -inf dB).
pub const PA_VOLUME_MUTED: pa_volume_t = 0;

/// Maximum valid volume we can store.
pub const PA_VOLUME_MAX: pa_volume_t = 0x7fff_ffff;

/// Special 'invalid' volume.
pub const PA_VOLUME_INVALID: pa_volume_t = 0xffff_ffff;

/// The number of channels a volume structure has room for.
pub const PA_CHANNELS_MAX: usize = 32;

/// The maximum length of strings returned by `pa_cvolume_snprint()`.
pub const PA_CVOLUME_SNPRINT_MAX: usize = 320;

/// The maximum length of strings returned by `pa_sw_cvolume_snprint_dB()`.
pub const PA_SW_CVOLUME_SNPRINT_DB_MAX: usize = 448;

/// The maximum length of strings returned by `pa_cvolume_snprint_verbose()`.
pub const PA_CVOLUME_SNPRINT_VERBOSE_MAX: usize = 1984;

/// The maximum length of strings returned by `pa_volume_snprint()`.
pub const PA_VOLUME_SNPRINT_MAX: usize = 10;

/// The maximum length of strings returned by `pa_sw_volume_snprint_dB()`.
pub const PA_SW_VOLUME_SNPRINT_DB_MAX: usize = 11;

/// The maximum length of strings returned by `pa_volume_snprint_verbose()`.
pub const PA_VOLUME_SNPRINT_VERBOSE_MAX: usize = 35;

/// A structure encapsulating a per-channel volume.
#[derive(Copy, Clone)]
pub struct pa_cvolume {
    /// Number of channels.
    pub channels: u8,
    /// Per-channel volume.
    pub values: [pa_volume_t; 32],
}

impl Default for pa_cvolume {
    /// No channels, every slot muted.
    fn default() -> (volume: pa_cvolume)
        ensures
            volume.channels == 0,
            forall|i: int| 0 <= i < 32 ==> volume.values[i] == PA_VOLUME_MUTED,
    {
        pa_cvolume { channels: 0, values: [0u32; 32] }
    }
}

/// `v` brought into the range of valid volumes.
pub open spec fn clamped_volume(v: pa_volume_t) -> pa_volume_t {
    if v > PA_VOLUME_MAX {
        PA_VOLUME_MAX
    } else {
        v
    }
}

/// Checks if `v` is a valid volume: at most [`PA_VOLUME_MAX`].
pub fn pa_volume_is_valid(v: pa_volume_t) -> (valid: bool)
    ensures
        valid == (v <= PA_VOLUME_MAX),
{
    v <= PA_VOLUME_MAX
}

/// Clamps `v` to the permitted range: a valid volume comes back unchanged,
/// anything above the maximum comes back as [`PA_VOLUME_MAX`].
pub fn pa_clamp_volume(v: pa_volume_t) -> (clamped: pa_volume_t)
    ensures
        clamped == clamped_volume(v),
        PA_VOLUME_MUTED <= clamped <= PA_VOLUME_MAX,
        v <= PA_VOLUME_MAX ==> clamped == v,
{
    if v > PA_VOLUME_MAX {
        return PA_VOLUME_MAX;
    }
    v
}

/// Clamping twice is clamping once, and what comes out is always valid.
pub proof fn lemma_clamp_is_idempotent(v: pa_volume_t)
    ensures
        clamped_volume(clamped_volume(v)) == clamped_volume(v),
        clamped_volume(v) <= PA_VOLUME_MAX,
{
}

} // verus!
