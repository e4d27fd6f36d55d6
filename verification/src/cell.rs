//! The write-once cell that holds a resolver's outcome.
//!
//! `once_cell::sync::OnceCell` is written at most once through a shared
//! reference, by whichever caller gets there first; every other caller
//! blocks until that write is done and then reads the same value. So a cell
//! has one value that it settles on, and the contracts here speak of that
//! value. They say nothing of whether a cell has been written yet: that
//! changes behind a shared reference. The one place that writes a cell is
//! with the resolver that owns it.

use crate::resolution::{Resolution, Settled};
use once_cell::sync::OnceCell;
use vstd::prelude::*;

verus! {

/// `once_cell::sync::OnceCell`: a thread-safe cell that can be written only
/// once. Nothing is known of its inside.
#[verifier::external_type_specification]
#[verifier::external_body]
#[verifier::reject_recursive_types(T)]
pub struct ExOnceCell<T>(OnceCell<T>);

/// The outcome that `cell` settles on: what its first and only write puts
/// there. Every read of a written cell sees this value.
pub uninterp spec fn settled_resolution(cell: OnceCell<Resolution>) -> Settled;

/// `OnceCell::new`: a fresh cell. It is empty; which outcome it will settle
/// on is not known yet.
#[verifier::external_body]
pub(crate) fn cell_new() -> (cell: OnceCell<Resolution>) {
    OnceCell::new()
}

/// `OnceCell::get`: the value in the cell, or `None` while the cell is
/// empty or being written. A value that is there is the one the cell has
/// settled on.
#[verifier::external_body]
pub(crate) fn cell_get(cell: &OnceCell<Resolution>) -> (held: Option<&Resolution>)
    ensures
        held matches Some(resolution) ==> resolution@ == settled_resolution(*cell),
{
    cell.get()
}

} // verus!
