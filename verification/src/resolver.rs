//! Resolving a library once and remembering the outcome.

use crate::cell::{cell_get, cell_new, settled_resolution};
use crate::dl::error_text;
use crate::library::TargetLibrary;
use crate::locator::{
    can_probe, lemma_present_candidate_bounds_search, locate, may_miss, search_result,
};
use crate::resolution::{InitError, Resolution, ResolutionOutcome, Settled};
use crate::table::{
    address_behind, can_resolve, lemma_missing_symbol_fails_load, load_fails_with, load_result,
    may_resolve, EntryPoint, SymbolTable,
};
use libloading::{Error, Library};
use once_cell::sync::OnceCell;
use std::sync::Arc;
use vstd::prelude::*;

verus! {

/// What one attempt on a library may come to.
///
/// With no candidate opened there is no table, and the opener failed on
/// every candidate. Otherwise the handle is the one from the first
/// candidate that opened; the table, if there is one, holds what `lookup`
/// answered on that handle for every symbol; and if there is none, `lookup`
/// failed on one of them.
pub open spec fn resolve_result<
    O: Fn(&str) -> Result<Library, Error>,
    L: Fn(&Library, &str) -> Result<usize, Error>,
>(target: TargetLibrary, opener: O, lookup: L, resolution: Resolution) -> bool {
    match resolution.located() {
        None => {
            &&& resolution.table() is None
            &&& search_result::<Library, Error, O>(target.candidates@, opener, None)
        },
        Some((index, handle)) => {
            &&& search_result::<Library, Error, O>(target.candidates@, opener, Some((index, handle)))
            &&& match resolution.table() {
                Some(table) => load_result(
                    &handle,
                    target.symbols@,
                    lookup,
                    Ok::<Arc<SymbolTable<Library>>, Error>(table),
                ),
                None => exists|error: Error|
                    #[trigger] load_fails_with(&handle, target.symbols@, lookup, error),
            }
        },
    }
}

/// Whether an attempt that ended in `resolution` owes a diagnostic: it does
/// when a library opened and one of its symbols was missing, and only then.
pub open spec fn owes_diagnostic(resolution: Resolution) -> bool {
    resolution.located() is Some && resolution.table() is None
}

/// `message` is a diagnostic of `target` for a missing symbol: it names the
/// library and ends in the loader's own words.
pub open spec fn is_diagnostic_of(target: TargetLibrary, message: Seq<char>) -> bool {
    exists|detail: Seq<char>| message == #[trigger] target.symbol_failure_text(detail)
}

/// Makes one attempt on a library and says what there is to report: finds
/// the library among its candidates, then resolves all of its symbols.
///
/// A missing library has no diagnostic. A missing symbol has one, which
/// names the library and carries the loader's error; the library stays
/// open, and no table is built.
pub fn attempt<O: Fn(&str) -> Result<Library, Error>, L: Fn(&Library, &str) -> Result<usize, Error>>(
    target: &TargetLibrary,
    opener: &O,
    lookup: &L,
) -> (ended: (Resolution, Option<String>))
    requires
        can_probe(target.candidates@, *opener),
        forall|handle: &Library| can_resolve(handle, target.symbols@, *lookup),
    ensures
        resolve_result(*target, *opener, *lookup, ended.0),
        ended.1 is Some <==> owes_diagnostic(ended.0),
        ended.1 matches Some(message) ==> is_diagnostic_of(*target, message@),
{
    match locate(target.candidates.as_slice(), opener) {
        None => (Resolution::absent(), None),
        Some((index, handle)) => {
            let library = Arc::new(handle);
            match SymbolTable::load(library.clone(), target.symbols.as_slice(), lookup) {
                Ok(table) => (Resolution::ready(index, table), None),
                Err(error) => {
                    let detail = error_text(&error);
                    let message = target.symbol_failure(detail.as_str());
                    assert(message@ == target.symbol_failure_text(detail@));
                    (Resolution::mismatched(index, library), Some(message))
                },
            }
        },
    }
}

/// Makes one attempt on a library, as [`attempt`] does, and hands its
/// diagnostic, if it has one, to `report`.
pub fn resolve<
    O: Fn(&str) -> Result<Library, Error>,
    L: Fn(&Library, &str) -> Result<usize, Error>,
    R: Fn(&str),
>(target: &TargetLibrary, opener: &O, lookup: &L, report: &R) -> (resolution: Resolution)
    requires
        can_probe(target.candidates@, *opener),
        forall|handle: &Library| can_resolve(handle, target.symbols@, *lookup),
        forall|message: &str| call_requires(*report, (message,)),
    ensures
        resolve_result(*target, *opener, *lookup, resolution),
{
    let (resolution, diagnostic) = attempt(target, opener, lookup);
    match diagnostic {
        Some(message) => report(message.as_str()),
        None => {},
    }
    resolution
}

/// On a host where no candidate can be opened, an attempt ends with no
/// library and no table.
pub proof fn lemma_absent_library_resolves_to_nothing<
    O: Fn(&str) -> Result<Library, Error>,
    L: Fn(&Library, &str) -> Result<usize, Error>,
>(target: TargetLibrary, opener: O, lookup: L, resolution: Resolution)
    requires
        resolve_result(target, opener, lookup, resolution),
        forall|name: &str, answer: Result<Library, Error>|
            call_ensures(opener, (name,), answer) ==> answer is Err,
    ensures
        resolution@.candidate is None,
        resolution@.table is None,
{
}

/// Where the first candidate is sure to open, an attempt settles on it: the
/// versioned file name wins over the unversioned one.
pub proof fn lemma_resolve_prefers_first_candidate<
    O: Fn(&str) -> Result<Library, Error>,
    L: Fn(&Library, &str) -> Result<usize, Error>,
>(target: TargetLibrary, opener: O, lookup: L, resolution: Resolution)
    requires
        resolve_result(target, opener, lookup, resolution),
        target.candidates@.len() > 0,
        !may_miss::<Library, Error, O>(target.candidates@, opener, 0),
    ensures
        resolution@.candidate == Some(0usize),
{
    match resolution.located() {
        None => {
            lemma_present_candidate_bounds_search::<Library, Error, O>(
                target.candidates@,
                opener,
                None,
                0,
            );
        },
        Some((index, handle)) => {
            lemma_present_candidate_bounds_search::<Library, Error, O>(
                target.candidates@,
                opener,
                Some((index, handle)),
                0,
            );
        },
    }
}

/// A library that lacks one required symbol leaves an attempt without a
/// table, whichever candidate opened and whatever else it exports.
pub proof fn lemma_missing_symbol_leaves_no_table<
    O: Fn(&str) -> Result<Library, Error>,
    L: Fn(&Library, &str) -> Result<usize, Error>,
>(target: TargetLibrary, opener: O, lookup: L, resolution: Resolution, missing: int)
    requires
        resolve_result(target, opener, lookup, resolution),
        0 <= missing < target.symbols@.len(),
        forall|handle: &Library| !may_resolve(handle, target.symbols@, lookup, missing),
    ensures
        resolution@.table is None,
{
    if let Some((index, handle)) = resolution.located() {
        if let Some(table) = resolution.table() {
            lemma_missing_symbol_fails_load(
                &handle,
                target.symbols@,
                lookup,
                Ok::<Arc<SymbolTable<Library>>, Error>(table),
                missing,
            );
        }
    }
}

/// A library's resolver: the description of the library, the host's way of
/// opening files and finding symbols, and the cell with the outcome.
///
/// The first call that needs the outcome makes the one attempt; every call
/// after that, from any thread, gets what that attempt left. Failure is
/// remembered like success and never retried.
///
/// The library stays open for as long as the resolver lives or anybody
/// holds the table it handed out. An address taken out of the table is
/// good for no longer than that, so a resolver is meant to be a
/// process-wide value that is never dropped.
pub struct Resolver<
    O: Fn(&str) -> Result<Library, Error>,
    L: Fn(&Library, &str) -> Result<usize, Error>,
    R: Fn(&str),
> {
    target: TargetLibrary,
    opener: O,
    lookup: L,
    report: R,
    cell: OnceCell<Resolution>,
}

impl<
    O: Fn(&str) -> Result<Library, Error>,
    L: Fn(&Library, &str) -> Result<usize, Error>,
    R: Fn(&str),
> Resolver<O, L, R> {
    #[verifier::type_invariant]
    spec fn host_is_total(self) -> bool {
        &&& can_probe(self.target.candidates@, self.opener)
        &&& forall|handle: &Library| can_resolve(handle, self.target.symbols@, self.lookup)
        &&& forall|message: &str| call_requires(self.report, (message,))
    }

    /// The library this resolver is for.
    pub closed spec fn library(&self) -> TargetLibrary {
        self.target
    }

    /// How this resolver opens a file.
    pub closed spec fn opener(&self) -> O {
        self.opener
    }

    /// How this resolver finds a symbol.
    pub closed spec fn lookup(&self) -> L {
        self.lookup
    }

    /// The outcome this resolver settles on. It is the same at every call.
    pub closed spec fn settled(&self) -> Settled {
        settled_resolution(self.cell)
    }

    /// `resolution` is what this resolver settles on, and it is an outcome
    /// that one attempt on this resolver's library, with its opener and its
    /// lookup, may come to.
    pub open spec fn settles_on(&self, resolution: Resolution) -> bool {
        &&& resolve_result(self.library(), self.opener(), self.lookup(), resolution)
        &&& resolution@ == self.settled()
    }

    /// `handle` is what this resolver lends out: the handle it settles on,
    /// or nothing if it settles on none.
    pub open spec fn lends(&self, handle: Option<&Library>) -> bool {
        match handle {
            Some(library) => self.settled().handle == Some(*library),
            None => self.settled().handle is None,
        }
    }

    /// `functions` is what this resolver hands out: the table it settles
    /// on, or nothing if it settles on none.
    pub open spec fn hands_out(&self, functions: Option<Arc<SymbolTable<Library>>>) -> bool {
        match functions {
            Some(table) => self.settled().table == Some(table@),
            None => self.settled().table is None,
        }
    }

    /// `outcome` is a state this resolver can be seen in: the initial one,
    /// or the terminal one that goes with what it settles on.
    pub open spec fn shows(&self, outcome: ResolutionOutcome) -> bool {
        match outcome {
            ResolutionOutcome::NotYetAttempted => true,
            ResolutionOutcome::Succeeded(table) => self.settled().table == Some(table@),
            ResolutionOutcome::PermanentlyFailed => self.settled().table is None,
        }
    }

    /// A resolver that has not attempted anything yet. `opener` opens a
    /// file by name, `lookup` finds a symbol in an opened library, and
    /// `report` takes the diagnostic of a failed attempt. None of them may
    /// call back into this resolver.
    pub fn new(target: TargetLibrary, opener: O, lookup: L, report: R) -> (resolver: Self)
        requires
            can_probe(target.candidates@, opener),
            forall|handle: &Library| can_resolve(handle, target.symbols@, lookup),
            forall|message: &str| call_requires(report, (message,)),
        ensures
            resolver.library() == target,
    {
        Resolver { target, opener, lookup, report, cell: cell_new() }
    }

    /// The settled outcome, attempting the resolution if nobody has yet.
    fn resolved(&self) -> (resolution: &Resolution)
        ensures
            self.settles_on(*resolution),
    {
        proof {
            use_type_invariant(self);
        }
        settle(self)
    }

    /// The handle of the library, opening it on first use. Every call lends
    /// the same handle.
    pub fn get_library(&self) -> (handle: Option<&Library>)
        ensures
            exists|resolution: Resolution|
                #[trigger] self.settles_on(resolution) && resolution@.handle == match handle {
                    Some(library) => Some(*library),
                    None => None,
                },
            self.lends(handle),
            handle is Some <==> self.settled().candidate is Some,
    {
        self.resolved().library()
    }

    /// Makes sure the one attempt has been made and says how it ended.
    pub fn init(&self) -> (done: Result<(), InitError>)
        ensures
            exists|resolution: Resolution|
                #[trigger] self.settles_on(resolution) && (done is Ok <==> resolution.table()
                    is Some),
            done is Ok <==> self.settled().table is Some,
            done matches Err(error) ==> error.message@ == self.library().unavailable_text(),
    {
        match self.resolved().functions() {
            Some(_) => Ok(()),
            None => Err(InitError { message: self.target.unavailable() }),
        }
    }

    /// The shared table, or `None` for good if the library or one of its
    /// symbols is missing. The first call makes the attempt.
    pub fn get_functions(&self) -> (functions: Option<Arc<SymbolTable<Library>>>)
        ensures
            exists|resolution: Resolution|
                #[trigger] self.settles_on(resolution) && functions == resolution.table(),
            self.hands_out(functions),
            functions is Some ==> self.settled().candidate is Some,
            functions matches Some(table) ==> self.settled().handle == Some(table.library()),
    {
        self.resolved().functions()
    }

    /// The entry point called `name`: what every call site
    /// asks for first. It is there only if the table is there and holds the
    /// name; the first call makes the attempt.
    pub fn entry_point(&self, name: &str) -> (entry: Option<EntryPoint>)
        ensures
            exists|resolution: Resolution|
                #[trigger] self.settles_on(resolution) && address_behind(entry)
                    == match resolution.table() {
                    Some(table) => table@.address_of(name@),
                    None => None,
                },
            address_behind(entry) == match self.settled().table {
                Some(table) => table.address_of(name@),
                None => None,
            },
    {
        match self.get_functions() {
            Some(table) => table.entry_of(name),
            None => None,
        }
    }

    /// The state of this resolver right now, without attempting anything:
    /// what [`ResolutionOutcome::read`] makes of one read of the cell.
    /// Whether the cell has been written yet changes behind the shared
    /// reference, so which state comes back is not decided by `self`; a
    /// terminal state that comes back is the one the resolver settles on.
    pub fn outcome(&self) -> (outcome: ResolutionOutcome)
        ensures
            self.shows(outcome),
            outcome is Succeeded ==> self.settled().candidate is Some,
    {
        ResolutionOutcome::read(cell_get(&self.cell))
    }
}

/// `OnceCell::get_or_init` on a resolver's own cell, with the resolver's one
/// attempt as the initializer: the value in the cell, after writing the
/// result of the attempt if the cell was empty. Of several callers at most
/// one runs the attempt, and the others wait for it. The value returned is
/// the one the cell settles on. It is an outcome of an attempt with this
/// resolver's library, opener and lookup because the cell is private to
/// the resolver and nothing else ever writes it. The attempt is handed the
/// library, the opener, the lookup and the sink for diagnostics, never the
/// cell or the resolver.
#[verifier::external_body]
fn settle<
    O: Fn(&str) -> Result<Library, Error>,
    L: Fn(&Library, &str) -> Result<usize, Error>,
    R: Fn(&str),
>(resolver: &Resolver<O, L, R>) -> (held: &Resolution)
    requires
        can_probe(resolver.target.candidates@, resolver.opener),
        forall|handle: &Library| can_resolve(handle, resolver.target.symbols@, resolver.lookup),
        forall|message: &str| call_requires(resolver.report, (message,)),
    ensures
        held@ == settled_resolution(resolver.cell),
        resolve_result(resolver.target, resolver.opener, resolver.lookup, *held),
{
    resolver.cell.get_or_init(
        || resolve(&resolver.target, &resolver.opener, &resolver.lookup, &resolver.report),
    )
}

/// Single outcome. Whatever two calls on one resolver hand out, from
/// whichever threads and however far apart, it is the same: both a table
/// with the same entries, or both nothing.
pub proof fn lemma_every_call_sees_one_outcome<
    O: Fn(&str) -> Result<Library, Error>,
    L: Fn(&Library, &str) -> Result<usize, Error>,
    R: Fn(&str),
>(
    resolver: Resolver<O, L, R>,
    first: Option<Arc<SymbolTable<Library>>>,
    second: Option<Arc<SymbolTable<Library>>>,
)
    requires
        resolver.hands_out(first),
        resolver.hands_out(second),
    ensures
        first is Some <==> second is Some,
        first matches Some(a) ==> second matches Some(b) && a@ == b@,
{
}

/// One handle. Whatever two calls on one resolver lend, it is the same
/// handle, or nothing both times: a resolver opens at most one library and
/// keeps it.
pub proof fn lemma_every_call_lends_one_handle<
    O: Fn(&str) -> Result<Library, Error>,
    L: Fn(&Library, &str) -> Result<usize, Error>,
    R: Fn(&str),
>(resolver: Resolver<O, L, R>, first: Option<&Library>, second: Option<&Library>)
    requires
        resolver.lends(first),
        resolver.lends(second),
    ensures
        first is Some <==> second is Some,
        first matches Some(a) ==> second matches Some(b) && *a == *b,
{
}

/// No partial table, at the resolver. A resolver for a library that lacks
/// one required symbol hands out nothing, whichever candidate opened and
/// whatever else the library exports.
pub proof fn lemma_resolver_needs_every_symbol<
    O: Fn(&str) -> Result<Library, Error>,
    L: Fn(&Library, &str) -> Result<usize, Error>,
    R: Fn(&str),
>(resolver: Resolver<O, L, R>, resolution: Resolution, missing: int)
    requires
        resolver.settles_on(resolution),
        0 <= missing < resolver.library().symbols@.len(),
        forall|handle: &Library|
            !may_resolve(handle, resolver.library().symbols@, resolver.lookup(), missing),
    ensures
        resolver.settled().table is None,
        resolver.hands_out(None),
{
    lemma_missing_symbol_leaves_no_table(
        resolver.library(),
        resolver.opener(),
        resolver.lookup(),
        resolution,
        missing,
    );
}

/// Candidate order, at the resolver. Where the first candidate is sure to
/// open, the resolver settles on it.
pub proof fn lemma_resolver_prefers_first_candidate<
    O: Fn(&str) -> Result<Library, Error>,
    L: Fn(&Library, &str) -> Result<usize, Error>,
    R: Fn(&str),
>(resolver: Resolver<O, L, R>, resolution: Resolution)
    requires
        resolver.settles_on(resolution),
        resolver.library().candidates@.len() > 0,
        !may_miss::<Library, Error, O>(resolver.library().candidates@, resolver.opener(), 0),
    ensures
        resolver.settled().candidate == Some(0usize),
{
    lemma_resolve_prefers_first_candidate(
        resolver.library(),
        resolver.opener(),
        resolver.lookup(),
        resolution,
    );
}

/// On a host where no candidate can be opened, a resolver settles on no
/// library and no table: it lends nothing and hands out nothing.
pub proof fn lemma_resolver_on_host_without_library<
    O: Fn(&str) -> Result<Library, Error>,
    L: Fn(&Library, &str) -> Result<usize, Error>,
    R: Fn(&str),
>(resolver: Resolver<O, L, R>, resolution: Resolution)
    requires
        resolver.settles_on(resolution),
        forall|name: &str, answer: Result<Library, Error>|
            call_ensures(resolver.opener(), (name,), answer) ==> answer is Err,
    ensures
        resolver.settled().candidate is None,
        resolver.lends(None),
        resolver.hands_out(None),
{
    lemma_absent_library_resolves_to_nothing(
        resolver.library(),
        resolver.opener(),
        resolver.lookup(),
        resolution,
    );
}

/// Failure is permanent. Once a resolver has handed out nothing, it hands
/// out nothing at every later call: a library that shows up afterwards is
/// not picked up.
pub proof fn lemma_failure_is_never_retried<
    O: Fn(&str) -> Result<Library, Error>,
    L: Fn(&Library, &str) -> Result<usize, Error>,
    R: Fn(&str),
>(resolver: Resolver<O, L, R>, later: Option<Arc<SymbolTable<Library>>>)
    requires
        resolver.hands_out(None),
        resolver.hands_out(later),
    ensures
        later is None,
{
}

/// One transition. Two terminal states seen on one resolver are the same
/// state: it never moves from failure to success or back, nor from one
/// table to another.
pub proof fn lemma_terminal_state_is_final<
    O: Fn(&str) -> Result<Library, Error>,
    L: Fn(&Library, &str) -> Result<usize, Error>,
    R: Fn(&str),
>(resolver: Resolver<O, L, R>, earlier: ResolutionOutcome, later: ResolutionOutcome)
    requires
        resolver.shows(earlier),
        resolver.shows(later),
        earlier.is_terminal(),
        later.is_terminal(),
    ensures
        earlier is PermanentlyFailed <==> later is PermanentlyFailed,
        earlier is Succeeded <==> later is Succeeded,
        earlier.table_view() == later.table_view(),
{
}

/// A terminal state that has been seen decides every later call: after
/// `PermanentlyFailed` nothing is handed out, after `Succeeded` the table
/// that was seen.
pub proof fn lemma_seen_state_decides_calls<
    O: Fn(&str) -> Result<Library, Error>,
    L: Fn(&Library, &str) -> Result<usize, Error>,
    R: Fn(&str),
>(resolver: Resolver<O, L, R>, seen: ResolutionOutcome, functions: Option<Arc<SymbolTable<Library>>>)
    requires
        resolver.shows(seen),
        seen.is_terminal(),
        resolver.hands_out(functions),
    ensures
        seen is PermanentlyFailed <==> functions is None,
        functions matches Some(table) ==> seen.table_view() == Some(table@),
{
}

} // verus!
