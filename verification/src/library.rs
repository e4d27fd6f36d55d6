//! What identifies one of the native libraries: the file names to probe,
//! the symbols to resolve, and the name it goes by in diagnostics.

use crate::symbols::{PULSE_SYMBOLS, PULSE_MAINLOOP_GLIB_SYMBOLS, PULSE_SIMPLE_SYMBOLS};
use vstd::prelude::*;

verus! {

/// File names of the core client library, versioned name first.
pub const PULSE_CANDIDATES: [&'static str; 2] = ["libpulse.so.0", "libpulse.so"];

/// File names of the simplified blocking I/O library, versioned name first.
pub const PULSE_SIMPLE_CANDIDATES: [&'static str; 2] = ["libpulse-simple.so.0", "libpulse-simple.so"];

/// File names of the GLib main loop integration library, versioned name
/// first.
pub const PULSE_MAINLOOP_GLIB_CANDIDATES: [&'static str; 2] = [
    "libpulse-mainloop-glib.so.0",
    "libpulse-mainloop-glib.so",
];

/// In each candidate list the versioned file name comes first, and it is
/// the unversioned name with `.0` behind it: a search meets the exact ABI
/// version before it meets whatever the unversioned link points at.
pub proof fn lemma_versioned_name_comes_first()
    ensures
        PULSE_CANDIDATES@[0]@ == PULSE_CANDIDATES@[1]@ + ".0"@,
        PULSE_SIMPLE_CANDIDATES@[0]@ == PULSE_SIMPLE_CANDIDATES@[1]@ + ".0"@,
        PULSE_MAINLOOP_GLIB_CANDIDATES@[0]@ == PULSE_MAINLOOP_GLIB_CANDIDATES@[1]@ + ".0"@,
{
    reveal_strlit(".0");
    reveal_strlit("libpulse.so.0");
    reveal_strlit("libpulse.so");
    reveal_strlit("libpulse-simple.so.0");
    reveal_strlit("libpulse-simple.so");
    reveal_strlit("libpulse-mainloop-glib.so.0");
    reveal_strlit("libpulse-mainloop-glib.so");
    assert("libpulse.so.0"@ =~= "libpulse.so"@ + ".0"@);
    assert("libpulse-simple.so.0"@ =~= "libpulse-simple.so"@ + ".0"@);
    assert("libpulse-mainloop-glib.so.0"@ =~= "libpulse-mainloop-glib.so"@ + ".0"@);
}

/// A native library as the resolver needs to know it.
pub struct TargetLibrary {
    /// The library's name in diagnostics.
    pub label: &'static str,
    /// File names to try, in this order; the first that opens wins.
    pub candidates: Vec<&'static str>,
    /// Exported names that must all be found.
    pub symbols: Vec<&'static str>,
}

/// Copies a fixed list of names into a vector, keeping the order.
fn names_of<const N: usize>(list: &[&'static str; N]) -> (names: Vec<&'static str>)
    ensures
        names@ == list@,
{
    let mut names: Vec<&'static str> = Vec::new();
    let mut index: usize = 0;
    while index < N
        invariant
            index <= N,
            names@ == list@.take(index as int),
        decreases N - index,
    {
        names.push(list[index]);
        assert(names@ == list@.take(index as int + 1));
        index += 1;
    }
    assert(names@ == list@);
    names
}

impl TargetLibrary {
    /// The core client library.
    pub fn pulse() -> (target: TargetLibrary)
        ensures
            target.label@ == "pulse"@,
            target.candidates@ == PULSE_CANDIDATES@,
            target.symbols@ == PULSE_SYMBOLS@,
    {
        TargetLibrary {
            label: "pulse",
            candidates: names_of(&PULSE_CANDIDATES),
            symbols: names_of(&PULSE_SYMBOLS),
        }
    }

    /// The simplified blocking I/O library.
    pub fn pulse_simple() -> (target: TargetLibrary)
        ensures
            target.label@ == "pulse-simple"@,
            target.candidates@ == PULSE_SIMPLE_CANDIDATES@,
            target.symbols@ == PULSE_SIMPLE_SYMBOLS@,
    {
        TargetLibrary {
            label: "pulse-simple",
            candidates: names_of(&PULSE_SIMPLE_CANDIDATES),
            symbols: names_of(&PULSE_SIMPLE_SYMBOLS),
        }
    }

    /// The GLib main loop integration library.
    pub fn pulse_mainloop_glib() -> (target: TargetLibrary)
        ensures
            target.label@ == "libpulse-mainloop-glib"@,
            target.candidates@ == PULSE_MAINLOOP_GLIB_CANDIDATES@,
            target.symbols@ == PULSE_MAINLOOP_GLIB_SYMBOLS@,
    {
        TargetLibrary {
            label: "libpulse-mainloop-glib",
            candidates: names_of(&PULSE_MAINLOOP_GLIB_CANDIDATES),
            symbols: names_of(&PULSE_MAINLOOP_GLIB_SYMBOLS),
        }
    }

    /// The text of the diagnostic for a symbol that could not be resolved.
    pub open spec fn symbol_failure_text(&self, detail: Seq<char>) -> Seq<char> {
        "Failed to load "@ + self.label@ + " functions: "@ + detail
    }

    /// The text of the error for a library that is not available.
    pub open spec fn unavailable_text(&self) -> Seq<char> {
        "Failed to load "@ + self.label@ + " library"@
    }

    /// The diagnostic for a symbol that could not be resolved: it names the
    /// library and carries the loader's own words in `detail`.
    pub fn symbol_failure(&self, detail: &str) -> (message: String)
        ensures
            message@ == self.symbol_failure_text(detail@),
    {
        let mut message = String::from_str("Failed to load ");
        message.append(self.label);
        message.append(" functions: ");
        message.append(detail);
        message
    }

    /// The error for a library that is not available: it names the library.
    pub fn unavailable(&self) -> (message: String)
        ensures
            message@ == self.unavailable_text(),
    {
        let mut message = String::from_str("Failed to load ");
        message.append(self.label);
        message.append(" library");
        message
    }
}

} // verus!
