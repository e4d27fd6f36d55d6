//! Main loop objects. The native library owns them; this side only ever
//! holds them by address.

#![allow(non_camel_case_types)]

use vstd::prelude::*;

verus! {

/// An opaque main loop object.
pub struct pa_mainloop {
    _private: [u8; 0],
}

/// An opaque main loop object that runs in a background thread.
pub struct pa_threaded_mainloop {
    _private: [u8; 0],
}

/// An opaque signal event object.
pub struct pa_signal_event {
    _private: [u8; 0],
}

} // verus!
