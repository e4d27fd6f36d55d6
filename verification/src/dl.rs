//! The dynamic loader's types, as this crate sees them.
//!
//! Opening a library and looking a symbol up are `unsafe` operations of
//! `libloading`; the embedding program performs them and hands the results
//! in. This module only carries those results around.

use vstd::prelude::*;

verus! {

/// `libloading::Library`: a shared library that has been opened and stays
/// mapped for as long as the value lives. Nothing is known of its inside.
#[verifier::external_type_specification]
#[verifier::external_body]
pub struct ExLibrary(libloading::Library);

/// `libloading::Error`: why the loader refused to open a library or to find
/// a symbol. Nothing is known of its inside.
#[verifier::external_type_specification]
#[verifier::external_body]
pub struct ExError(libloading::Error);

/// The text of a loader error, through `libloading::Error`'s `Display` impl.
/// The text depends on the platform's own message, so nothing is promised
/// of it.
#[verifier::external_body]
pub(crate) fn error_text(error: &libloading::Error) -> (text: String) {
    format!("{}", error)
}

} // verus!
