//! The outcome of resolving one library, and the states a resolver can be
//! seen in.

use crate::table::{SymbolTable, TableView};
use libloading::Library;
use std::sync::Arc;
use vstd::prelude::*;

verus! {

/// What a resolver has settled on.
pub struct Settled {
    /// Index of the candidate file name that opened, if one did.
    pub candidate: Option<usize>,
    /// The handle of the library that opened, if one did.
    pub handle: Option<Library>,
    /// The table, if every symbol was found.
    pub table: Option<TableView>,
}

/// The one outcome of a resolution attempt.
///
/// It keeps a share of the library handle, and so does its table: the
/// library stays open for as long as either lives. A table is there only
/// if a library was opened, and it is a table of that library.
pub struct Resolution {
    located: Option<(usize, Arc<Library>)>,
    table: Option<Arc<SymbolTable<Library>>>,
}

impl View for Resolution {
    type V = Settled;

    open spec fn view(&self) -> Settled {
        Settled {
            candidate: match self.located() {
                Some((index, _)) => Some(index),
                None => None,
            },
            handle: match self.located() {
                Some((_, handle)) => Some(handle),
                None => None,
            },
            table: match self.table() {
                Some(table) => Some(table@),
                None => None,
            },
        }
    }
}

impl Resolution {
    #[verifier::type_invariant]
    spec fn table_needs_library(self) -> bool {
        self.table matches Some(table) ==> (self.located matches Some((_, library))
            && table.library() == *library)
    }

    /// The candidate index and the handle of the library that opened.
    pub closed spec fn located(&self) -> Option<(usize, Library)> {
        match self.located {
            Some((index, library)) => Some((index, *library)),
            None => None,
        }
    }

    /// The table of resolved entry points.
    pub closed spec fn table(&self) -> Option<Arc<SymbolTable<Library>>> {
        self.table
    }

    /// No candidate could be opened.
    pub fn absent() -> (resolution: Resolution)
        ensures
            resolution.located() is None,
            resolution.table() is None,
    {
        Resolution { located: None, table: None }
    }

    /// The candidate at `index` opened, but a required symbol is missing.
    /// The handle is kept; no table exists.
    pub fn mismatched(index: usize, handle: Arc<Library>) -> (resolution: Resolution)
        ensures
            resolution.located() == Some((index, *handle)),
            resolution.table() is None,
    {
        Resolution { located: Some((index, handle)), table: None }
    }

    /// The candidate at `index` opened and every symbol was found: `table`
    /// is the table of that library.
    pub fn ready(index: usize, table: Arc<SymbolTable<Library>>) -> (resolution: Resolution)
        ensures
            resolution.located() == Some((index, table.library())),
            resolution.table() == Some(table),
    {
        Resolution { located: Some((index, table.keeper())), table: Some(table) }
    }

    /// The handle of the opened library.
    pub fn library(&self) -> (handle: Option<&Library>)
        ensures
            handle is Some <==> self@.candidate is Some,
            handle matches Some(h) ==> self@.handle == Some(*h),
            handle is None ==> self@.handle is None,
    {
        match &self.located {
            Some(pair) => Some(&*pair.1),
            None => None,
        }
    }

    /// Index of the candidate file name that opened.
    pub fn candidate(&self) -> (index: Option<usize>)
        ensures
            index == self@.candidate,
    {
        match &self.located {
            Some(pair) => Some(pair.0),
            None => None,
        }
    }

    /// A shared reference to the table, if there is one. The table keeps
    /// the handle of this outcome.
    pub fn functions(&self) -> (table: Option<Arc<SymbolTable<Library>>>)
        ensures
            table == self.table(),
            table is Some ==> self@.candidate is Some,
            table matches Some(held) ==> self@.handle == Some(held.library()),
    {
        proof {
            use_type_invariant(self);
        }
        match &self.table {
            Some(table) => Some(table.clone()),
            None => None,
        }
    }

    /// The state this outcome puts a resolver in: never the initial one.
    pub fn outcome(&self) -> (outcome: ResolutionOutcome)
        ensures
            outcome == outcome_of(self.table()),
    {
        match self.functions() {
            Some(table) => ResolutionOutcome::Succeeded(table),
            None => ResolutionOutcome::PermanentlyFailed,
        }
    }
}

/// The states of a resolver. It starts in `NotYetAttempted`, moves once to
/// one of the other two, and stays there.
pub enum ResolutionOutcome {
    /// Nothing has asked for the table yet.
    NotYetAttempted,
    /// The library was found and every symbol resolved.
    Succeeded(Arc<SymbolTable<Library>>),
    /// The library or one of its symbols is missing; this is never retried.
    PermanentlyFailed,
}

/// The terminal state that goes with a table or with its absence.
pub open spec fn outcome_of(table: Option<Arc<SymbolTable<Library>>>) -> ResolutionOutcome {
    match table {
        Some(table) => ResolutionOutcome::Succeeded(table),
        None => ResolutionOutcome::PermanentlyFailed,
    }
}

/// The state that goes with what a read of a resolver's cell gave: the
/// initial state for an empty cell, and for a written cell the terminal
/// state of the outcome in it.
pub open spec fn state_read(held: Option<&Resolution>) -> ResolutionOutcome {
    match held {
        Some(resolution) => outcome_of(resolution.table()),
        None => ResolutionOutcome::NotYetAttempted,
    }
}

impl ResolutionOutcome {
    /// The state of a resolver whose cell was just read, with `held` as
    /// what the read gave. Nothing in the cell means that no attempt has
    /// been made; an outcome in it means success if it has a table and
    /// permanent failure if it has none.
    pub fn read(held: Option<&Resolution>) -> (outcome: ResolutionOutcome)
        ensures
            outcome == state_read(held),
            outcome is Succeeded ==> (held matches Some(resolution) && resolution@.candidate
                is Some),
    {
        match held {
            Some(resolution) => {
                proof {
                    use_type_invariant(resolution);
                }
                resolution.outcome()
            },
            None => ResolutionOutcome::NotYetAttempted,
        }
    }

    /// Whether the one attempt has been made.
    pub open spec fn is_terminal(&self) -> bool {
        !(self is NotYetAttempted)
    }

    /// The table as plain values, for a state that has one.
    pub open spec fn table_view(&self) -> Option<TableView> {
        match self {
            ResolutionOutcome::Succeeded(table) => Some(table@),
            _ => None,
        }
    }

    /// The table, for a state that has one.
    pub fn table(&self) -> (table: Option<Arc<SymbolTable<Library>>>)
        ensures
            match *self {
                ResolutionOutcome::Succeeded(held) => table == Some(held),
                _ => table is None,
            },
    {
        match self {
            ResolutionOutcome::Succeeded(table) => Some(table.clone()),
            _ => None,
        }
    }
}

/// Why `init` failed. The text names the library.
pub struct InitError {
    pub message: String,
}

} // verus!
