//! Connection contexts for asynchronous communication with a server.

#![allow(non_camel_case_types)]

use vstd::prelude::*;

verus! {

/// An opaque connection context to a daemon.
pub struct pa_context {
    _private: [u8; 0],
}

/// The state of a connection context.
#[derive(Debug, Copy, Clone, PartialEq, Eq, Structural)]
pub enum pa_context_state_t {
    /// The context hasn't been connected yet.
    Unconnected,
    /// A connection is being established.
    Connecting,
    /// The client is authorizing itself to the daemon.
    Authorizing,
    /// The client is passing its application name to the daemon.
    SettingName,
    /// The connection is established, the context is ready to execute operations.
    Ready,
    /// The connection failed or was disconnected.
    Failed,
    /// The connection was terminated cleanly.
    Terminated,
}

pub const PA_CONTEXT_UNCONNECTED: pa_context_state_t = pa_context_state_t::Unconnected;

pub const PA_CONTEXT_CONNECTING: pa_context_state_t = pa_context_state_t::Connecting;

pub const PA_CONTEXT_AUTHORIZING: pa_context_state_t = pa_context_state_t::Authorizing;

pub const PA_CONTEXT_SETTING_NAME: pa_context_state_t = pa_context_state_t::SettingName;

pub const PA_CONTEXT_READY: pa_context_state_t = pa_context_state_t::Ready;

pub const PA_CONTEXT_FAILED: pa_context_state_t = pa_context_state_t::Failed;

pub const PA_CONTEXT_TERMINATED: pa_context_state_t = pa_context_state_t::Terminated;

impl pa_context_state_t {
    /// The value this variant has on the native side.
    pub open spec fn discriminant(self) -> int {
        match self {
            pa_context_state_t::Unconnected => 0,
            pa_context_state_t::Connecting => 1,
            pa_context_state_t::Authorizing => 2,
            pa_context_state_t::SettingName => 3,
            pa_context_state_t::Ready => 4,
            pa_context_state_t::Failed => 5,
            pa_context_state_t::Terminated => 6,
        }
    }

    /// The native value of this variant.
    pub fn to_i32(self) -> (raw: i32)
        ensures
            raw == self.discriminant(),
    {
        match self {
            pa_context_state_t::Unconnected => 0,
            pa_context_state_t::Connecting => 1,
            pa_context_state_t::Authorizing => 2,
            pa_context_state_t::SettingName => 3,
            pa_context_state_t::Ready => 4,
            pa_context_state_t::Failed => 5,
            pa_context_state_t::Terminated => 6,
        }
    }

    /// The variant with the native value `raw`, if there is one.
    pub fn from_i32(raw: i32) -> (variant: Option<pa_context_state_t>)
        ensures
            variant matches Some(v) ==> v.discriminant() == raw,
            variant is None ==> forall|v: pa_context_state_t| v.discriminant() != raw,
    {
        if raw == 0 {
            Some(pa_context_state_t::Unconnected)
        } else if raw == 1 {
            Some(pa_context_state_t::Connecting)
        } else if raw == 2 {
            Some(pa_context_state_t::Authorizing)
        } else if raw == 3 {
            Some(pa_context_state_t::SettingName)
        } else if raw == 4 {
            Some(pa_context_state_t::Ready)
        } else if raw == 5 {
            Some(pa_context_state_t::Failed)
        } else if raw == 6 {
            Some(pa_context_state_t::Terminated)
        } else {
            None
        }
    }
}

/// Going to the native value and back gives the same variant, and no
/// two variants share a native value.
pub proof fn lemma_context_state_discriminants_are_distinct(a: pa_context_state_t, b: pa_context_state_t)
    ensures
        a.discriminant() == b.discriminant() ==> a == b,
{
}

/// Whether `state` is one of the connected states.
pub open spec fn context_is_good(state: pa_context_state_t) -> bool {
    state is Connecting || state is Authorizing || state is SettingName || state is Ready
}

/// Checks if the passed state is one of the connected states (returns `true` if so).
pub fn pa_context_is_good(state: pa_context_state_t) -> (good: bool)
    ensures
        good == context_is_good(state),
        good == (1 <= state.discriminant() <= 4),
{
    state == pa_context_state_t::Connecting || state == pa_context_state_t::Authorizing || state
        == pa_context_state_t::SettingName || state == pa_context_state_t::Ready
}

/// Flags for a connection context.
pub type pa_context_flags_t = u32;

/// No flags set.
pub const PA_CONTEXT_NOFLAGS: pa_context_flags_t = 0x0;

/// Disable autospawning of the PulseAudio daemon if required.
pub const PA_CONTEXT_NOAUTOSPAWN: pa_context_flags_t = 0x1;

/// Don't fail if the daemon is not available when connecting; enter the
/// connecting state and wait for the daemon to appear.
pub const PA_CONTEXT_NOFAIL: pa_context_flags_t = 0x2;

} // verus!
