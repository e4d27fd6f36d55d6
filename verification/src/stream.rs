//! Audio streams for input, output and sample upload.

#![allow(non_camel_case_types)]

use vstd::prelude::*;

verus! {

/// An opaque stream for playback or recording.
pub struct pa_stream {
    _private: [u8; 0],
}

/// The state of a stream.
#[derive(Debug, Copy, Clone, PartialEq, Eq, Structural)]
pub enum pa_stream_state_t {
    /// The stream is not yet connected to any sink or source.
    Unconnected,
    /// The stream is being created.
    Creating,
    /// The stream is established, you may pass audio data to it now.
    Ready,
    /// An error occurred that made the stream invalid.
    Failed,
    /// The stream has been terminated cleanly.
    Terminated,
}

pub const PA_STREAM_UNCONNECTED: pa_stream_state_t = pa_stream_state_t::Unconnected;

pub const PA_STREAM_CREATING: pa_stream_state_t = pa_stream_state_t::Creating;

pub const PA_STREAM_READY: pa_stream_state_t = pa_stream_state_t::Ready;

pub const PA_STREAM_FAILED: pa_stream_state_t = pa_stream_state_t::Failed;

pub const PA_STREAM_TERMINATED: pa_stream_state_t = pa_stream_state_t::Terminated;

impl pa_stream_state_t {
    /// The value this variant has on the native side.
    pub open spec fn discriminant(self) -> int {
        match self {
            pa_stream_state_t::Unconnected => 0,
            pa_stream_state_t::Creating => 1,
            pa_stream_state_t::Ready => 2,
            pa_stream_state_t::Failed => 3,
            pa_stream_state_t::Terminated => 4,
        }
    }

    /// The native value of this variant.
    pub fn to_i32(self) -> (raw: i32)
        ensures
            raw == self.discriminant(),
    {
        match self {
            pa_stream_state_t::Unconnected => 0,
            pa_stream_state_t::Creating => 1,
            pa_stream_state_t::Ready => 2,
            pa_stream_state_t::Failed => 3,
            pa_stream_state_t::Terminated => 4,
        }
    }

    /// The variant with the native value `raw`, if there is one.
    pub fn from_i32(raw: i32) -> (variant: Option<pa_stream_state_t>)
        ensures
            variant matches Some(v) ==> v.discriminant() == raw,
            variant is None ==> forall|v: pa_stream_state_t| v.discriminant() != raw,
    {
        if raw == 0 {
            Some(pa_stream_state_t::Unconnected)
        } else if raw == 1 {
            Some(pa_stream_state_t::Creating)
        } else if raw == 2 {
            Some(pa_stream_state_t::Ready)
        } else if raw == 3 {
            Some(pa_stream_state_t::Failed)
        } else if raw == 4 {
            Some(pa_stream_state_t::Terminated)
        } else {
            None
        }
    }
}

/// Going to the native value and back gives the same variant, and no
/// two variants share a native value.
pub proof fn lemma_stream_state_discriminants_are_distinct(a: pa_stream_state_t, b: pa_stream_state_t)
    ensures
        a.discriminant() == b.discriminant() ==> a == b,
{
}

/// Stream direction.
#[derive(Debug, Copy, Clone, PartialEq, Eq, Structural)]
pub enum pa_stream_direction_t {
    /// Invalid.
    Invalid,
    /// Playback.
    Playback,
    /// Record.
    Record,
    /// Upload.
    Upload,
}

pub const PA_STREAM_NODIRECTION: pa_stream_direction_t = pa_stream_direction_t::Invalid;

pub const PA_STREAM_PLAYBACK: pa_stream_direction_t = pa_stream_direction_t::Playback;

pub const PA_STREAM_RECORD: pa_stream_direction_t = pa_stream_direction_t::Record;

pub const PA_STREAM_UPLOAD: pa_stream_direction_t = pa_stream_direction_t::Upload;

impl pa_stream_direction_t {
    /// The value this variant has on the native side.
    pub open spec fn discriminant(self) -> int {
        match self {
            pa_stream_direction_t::Invalid => 0,
            pa_stream_direction_t::Playback => 1,
            pa_stream_direction_t::Record => 2,
            pa_stream_direction_t::Upload => 3,
        }
    }

    /// The native value of this variant.
    pub fn to_i32(self) -> (raw: i32)
        ensures
            raw == self.discriminant(),
    {
        match self {
            pa_stream_direction_t::Invalid => 0,
            pa_stream_direction_t::Playback => 1,
            pa_stream_direction_t::Record => 2,
            pa_stream_direction_t::Upload => 3,
        }
    }

    /// The variant with the native value `raw`, if there is one.
    pub fn from_i32(raw: i32) -> (variant: Option<pa_stream_direction_t>)
        ensures
            variant matches Some(v) ==> v.discriminant() == raw,
            variant is None ==> forall|v: pa_stream_direction_t| v.discriminant() != raw,
    {
        if raw == 0 {
            Some(pa_stream_direction_t::Invalid)
        } else if raw == 1 {
            Some(pa_stream_direction_t::Playback)
        } else if raw == 2 {
            Some(pa_stream_direction_t::Record)
        } else if raw == 3 {
            Some(pa_stream_direction_t::Upload)
        } else {
            None
        }
    }
}

/// Going to the native value and back gives the same variant, and no
/// two variants share a native value.
pub proof fn lemma_stream_direction_discriminants_are_distinct(a: pa_stream_direction_t, b: pa_stream_direction_t)
    ensures
        a.discriminant() == b.discriminant() ==> a == b,
{
}

/// Seek mode.
#[derive(Debug, Copy, Clone, PartialEq, Eq, Structural)]
pub enum pa_seek_mode_t {
    /// Seek relatively to the write index.
    Relative,
    /// Seek relatively to the start of the buffer queue.
    Absolute,
    /// Seek relatively to the read index.
    RelativeOnRead,
    /// Seek relatively to the current end of the buffer queue.
    RelativeEnd,
}

pub const PA_SEEK_RELATIVE: pa_seek_mode_t = pa_seek_mode_t::Relative;

pub const PA_SEEK_ABSOLUTE: pa_seek_mode_t = pa_seek_mode_t::Absolute;

pub const PA_SEEK_RELATIVE_ON_READ: pa_seek_mode_t = pa_seek_mode_t::RelativeOnRead;

pub const PA_SEEK_RELATIVE_END: pa_seek_mode_t = pa_seek_mode_t::RelativeEnd;

impl pa_seek_mode_t {
    /// The value this variant has on the native side.
    pub open spec fn discriminant(self) -> int {
        match self {
            pa_seek_mode_t::Relative => 0,
            pa_seek_mode_t::Absolute => 1,
            pa_seek_mode_t::RelativeOnRead => 2,
            pa_seek_mode_t::RelativeEnd => 3,
        }
    }

    /// The native value of this variant.
    pub fn to_i32(self) -> (raw: i32)
        ensures
            raw == self.discriminant(),
    {
        match self {
            pa_seek_mode_t::Relative => 0,
            pa_seek_mode_t::Absolute => 1,
            pa_seek_mode_t::RelativeOnRead => 2,
            pa_seek_mode_t::RelativeEnd => 3,
        }
    }

    /// The variant with the native value `raw`, if there is one.
    pub fn from_i32(raw: i32) -> (variant: Option<pa_seek_mode_t>)
        ensures
            variant matches Some(v) ==> v.discriminant() == raw,
            variant is None ==> forall|v: pa_seek_mode_t| v.discriminant() != raw,
    {
        if raw == 0 {
            Some(pa_seek_mode_t::Relative)
        } else if raw == 1 {
            Some(pa_seek_mode_t::Absolute)
        } else if raw == 2 {
            Some(pa_seek_mode_t::RelativeOnRead)
        } else if raw == 3 {
            Some(pa_seek_mode_t::RelativeEnd)
        } else {
            None
        }
    }
}

/// Going to the native value and back gives the same variant, and no
/// two variants share a native value.
pub proof fn lemma_seek_mode_discriminants_are_distinct(a: pa_seek_mode_t, b: pa_seek_mode_t)
    ensures
        a.discriminant() == b.discriminant() ==> a == b,
{
}

/// Whether `state` is one of the connected states.
pub open spec fn stream_is_good(state: pa_stream_state_t) -> bool {
    state is Creating || state is Ready
}

/// Checks if the passed state is one of the connected states (returns `true` if so).
pub fn pa_stream_is_good(state: pa_stream_state_t) -> (good: bool)
    ensures
        good == stream_is_good(state),
        good == (1 <= state.discriminant() <= 2),
{
    state == pa_stream_state_t::Creating || state == pa_stream_state_t::Ready
}

/// Flags for stream connections.
pub type pa_stream_flags_t = u32;

/// Flag to pass when no specific options are needed.
pub const PA_STREAM_NOFLAGS: pa_stream_flags_t = 0x0;

/// Create the stream corked, requiring an explicit uncork call.
pub const PA_STREAM_START_CORKED: pa_stream_flags_t = 0x1;

/// Interpolate the latency for this stream.
pub const PA_STREAM_INTERPOLATE_TIMING: pa_stream_flags_t = 0x2;

/// Don't force the time to increase monotonically.
pub const PA_STREAM_NOT_MONOTONIC: pa_stream_flags_t = 0x4;

/// Issue timing update requests automatically.
pub const PA_STREAM_AUTO_TIMING_UPDATE: pa_stream_flags_t = 0x8;

/// Don't remap channels by their name, instead map them simply by their index.
pub const PA_STREAM_NO_REMAP_CHANNELS: pa_stream_flags_t = 0x10;

/// When remapping channels by name, don't upmix or downmix them to related channels.
pub const PA_STREAM_NO_REMIX_CHANNELS: pa_stream_flags_t = 0x20;

/// Use the sample format of the sink or source this stream is being connected to.
pub const PA_STREAM_FIX_FORMAT: pa_stream_flags_t = 0x40;

/// Use the sample rate of the sink or source this stream is being connected to.
pub const PA_STREAM_FIX_RATE: pa_stream_flags_t = 0x80;

/// Use the number of channels and the channel map of the sink or source.
pub const PA_STREAM_FIX_CHANNELS: pa_stream_flags_t = 0x100;

/// Don't allow moving of this stream to another sink or source.
pub const PA_STREAM_DONT_MOVE: pa_stream_flags_t = 0x200;

/// Allow dynamic changing of the sampling rate during playback.
pub const PA_STREAM_VARIABLE_RATE: pa_stream_flags_t = 0x400;

/// Find peaks instead of resampling.
pub const PA_STREAM_PEAK_DETECT: pa_stream_flags_t = 0x800;

/// Create in muted state.
pub const PA_STREAM_START_MUTED: pa_stream_flags_t = 0x1000;

/// Try to adjust the latency of the sink or source based on the requested buffer metrics.
pub const PA_STREAM_ADJUST_LATENCY: pa_stream_flags_t = 0x2000;

/// Enable compatibility mode for legacy clients that rely on a classic hardware device fragment-style playback model.
pub const PA_STREAM_EARLY_REQUESTS: pa_stream_flags_t = 0x4000;

/// If set this stream won't be taken into account when it is checked whether the device can auto-suspend.
pub const PA_STREAM_DONT_INHIBIT_AUTO_SUSPEND: pa_stream_flags_t = 0x8000;

/// Create in unmuted state.
pub const PA_STREAM_START_UNMUTED: pa_stream_flags_t = 0x10000;

/// Fail if the stream is suspended instead of just being corked.
pub const PA_STREAM_FAIL_ON_SUSPEND: pa_stream_flags_t = 0x20000;

/// The volume passed when the stream is created is relative to the sink's current volume.
pub const PA_STREAM_RELATIVE_VOLUME: pa_stream_flags_t = 0x40000;

/// Used to tag content that will be rendered by passthrough sinks.
pub const PA_STREAM_PASSTHROUGH: pa_stream_flags_t = 0x80000;

/// A stream event asking the client to cork.
pub const PA_STREAM_EVENT_REQUEST_CORK: &'static str = "request-cork";

/// A stream event asking the client to uncork.
pub const PA_STREAM_EVENT_REQUEST_UNCORK: &'static str = "request-uncork";

/// A stream event telling that the stream's format is no longer available.
pub const PA_STREAM_EVENT_FORMAT_LOST: &'static str = "format-lost";

} // verus!
