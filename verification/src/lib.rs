//! Runtime binding to the PulseAudio client libraries.
//!
//! Nothing here links against the native libraries. A [`resolver::Resolver`]
//! finds a shared library by trying an ordered list of file names
//! ([`locator`]), resolves every symbol the binding needs or none at all
//! ([`table`]), remembers the single outcome for the rest of the process, and
//! every call site degrades to a fixed failure value when that outcome is
//! absent ([`fallback`]).

pub mod cell;
pub mod context;
pub mod dl;
pub mod fallback;
pub mod format;
pub mod introspect;
pub mod library;
pub mod locator;
pub mod mainloop;
pub mod resolution;
pub mod resolver;
pub mod stream;
pub mod symbols;
pub mod table;
pub mod timeval;
pub mod volume;
pub mod xmalloc;
