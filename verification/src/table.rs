//! The table of resolved entry points: complete, or not there at all.

use libloading::Error;
use std::sync::Arc;
use vstd::prelude::*;
use vstd::utf8::{decode_utf8, encode_utf8, encode_utf8_decode_utf8};

verus! {

/// The addresses of a library's entry points, one for each required symbol,
/// in the order of the symbol list.
///
/// A table comes only from [`SymbolTable::load`], and only when every
/// symbol was found: a table with holes cannot be built. It owns a share of
/// the handle it was loaded from, so the library stays open for as long as
/// anybody holds the table.
pub struct SymbolTable<H> {
    library: Arc<H>,
    names: Vec<&'static str>,
    addresses: Vec<usize>,
}

/// One resolved entry point: an address that the loader gave for a symbol
/// of an opened library. It comes only out of a table, so whoever holds one
/// got it through a resolution that succeeded.
#[derive(Debug, Copy, Clone, PartialEq, Eq, Structural)]
pub struct EntryPoint {
    address: usize,
}

impl View for EntryPoint {
    type V = usize;

    closed spec fn view(&self) -> usize {
        self.address
    }
}

impl EntryPoint {
    /// The address to call.
    pub fn address(self) -> (address: usize)
        ensures
            address == self@,
    {
        self.address
    }
}

/// The address behind an entry point that may be missing.
pub open spec fn address_behind(entry: Option<EntryPoint>) -> Option<usize> {
    match entry {
        Some(entry) => Some(entry@),
        None => None,
    }
}

/// A table as plain values.
pub struct TableView {
    /// The symbol names, in table order.
    pub names: Seq<&'static str>,
    /// The resolved addresses, in table order.
    pub addresses: Seq<usize>,
}

impl TableView {
    /// Where `name` stands in the table: its first position, if it is there.
    pub open spec fn index_of(self, name: Seq<char>) -> Option<int> {
        if exists|at: int| is_first_position(self.names, name, at) {
            Some(choose|at: int| is_first_position(self.names, name, at))
        } else {
            None
        }
    }

    /// The address of the entry point called `name`, if the table has it.
    pub open spec fn address_of(self, name: Seq<char>) -> Option<usize> {
        match self.index_of(name) {
            Some(at) => Some(self.addresses[at]),
            None => None,
        }
    }
}

/// A name has at most one first position.
pub proof fn lemma_first_position_is_unique(
    names: Seq<&'static str>,
    name: Seq<char>,
    one: int,
    other: int,
)
    requires
        is_first_position(names, name, one),
        is_first_position(names, name, other),
    ensures
        one == other,
{
}

impl<H> View for SymbolTable<H> {
    type V = TableView;

    open spec fn view(&self) -> TableView {
        TableView { names: self.names(), addresses: self.addresses() }
    }
}

/// `lookup` can be asked about every name in `symbols`.
pub open spec fn can_resolve<H, L: Fn(&H, &str) -> Result<usize, Error>>(
    handle: &H,
    symbols: Seq<&'static str>,
    lookup: L,
) -> bool {
    forall|i: int| 0 <= i < symbols.len() ==> call_requires(lookup, (handle, #[trigger] symbols[i]))
}

/// `lookup` may answer `address` for the `index`-th symbol.
pub open spec fn resolves_to<H, L: Fn(&H, &str) -> Result<usize, Error>>(
    handle: &H,
    symbols: Seq<&'static str>,
    lookup: L,
    index: int,
    address: usize,
) -> bool {
    call_ensures(lookup, (handle, symbols[index]), Ok::<usize, Error>(address))
}

/// `lookup` may find the `index`-th symbol.
pub open spec fn may_resolve<H, L: Fn(&H, &str) -> Result<usize, Error>>(
    handle: &H,
    symbols: Seq<&'static str>,
    lookup: L,
    index: int,
) -> bool {
    exists|address: usize| resolves_to(handle, symbols, lookup, index, address)
}

/// `lookup` may fail with `error` on the `index`-th symbol, after it found
/// every symbol before that one.
pub open spec fn fails_first_at<H, L: Fn(&H, &str) -> Result<usize, Error>>(
    handle: &H,
    symbols: Seq<&'static str>,
    lookup: L,
    index: int,
    error: Error,
) -> bool {
    &&& 0 <= index < symbols.len()
    &&& call_ensures(lookup, (handle, symbols[index]), Err::<usize, Error>(error))
    &&& forall|j: int| 0 <= j < index ==> #[trigger] may_resolve(handle, symbols, lookup, j)
}

/// Loading `symbols` through `lookup` may end with `error`: the one
/// `lookup` gave for the first symbol it did not find.
pub open spec fn load_fails_with<H, L: Fn(&H, &str) -> Result<usize, Error>>(
    handle: &H,
    symbols: Seq<&'static str>,
    lookup: L,
    error: Error,
) -> bool {
    exists|i: int| fails_first_at(handle, symbols, lookup, i, error)
}

/// What loading `symbols` through `lookup` may answer. A table holds, for
/// each symbol and in order, an address that `lookup` gave for it. An error
/// is one that loading may end with.
pub open spec fn load_result<H, L: Fn(&H, &str) -> Result<usize, Error>>(
    handle: &H,
    symbols: Seq<&'static str>,
    lookup: L,
    loaded: Result<Arc<SymbolTable<H>>, Error>,
) -> bool {
    match loaded {
        Ok(table) => {
            &&& table.library() == *handle
            &&& table.names() == symbols
            &&& table.addresses().len() == symbols.len()
            &&& forall|i: int|
                0 <= i < symbols.len() ==> resolves_to(
                    handle,
                    symbols,
                    lookup,
                    i,
                    #[trigger] table.addresses()[i],
                )
        },
        Err(error) => load_fails_with(handle, symbols, lookup, error),
    }
}

/// Whether two names are spelled the same, byte for byte.
pub fn same_name(a: &str, b: &str) -> (same: bool)
    ensures
        same == (a@ == b@),
{
    let left = a.as_bytes();
    let right = b.as_bytes();
    proof {
        encode_utf8_decode_utf8(a@);
        encode_utf8_decode_utf8(b@);
        assert(left@ == right@ ==> a@ == b@) by {
            if left@ == right@ {
                assert(decode_utf8(encode_utf8(a@)) == decode_utf8(encode_utf8(b@)));
            }
        }
    }
    if left.len() != right.len() {
        return false;
    }
    let mut index: usize = 0;
    while index < left.len()
        invariant
            index <= left.len(),
            left.len() == right.len(),
            left@ == encode_utf8(a@),
            right@ == encode_utf8(b@),
            left@ == right@ ==> a@ == b@,
            forall|i: int| 0 <= i < index ==> left@[i] == right@[i],
        decreases left.len() - index,
    {
        if left[index] != right[index] {
            return false;
        }
        index += 1;
    }
    assert(left@ =~= right@);
    true
}

/// `at` is the first position in `names` that holds `name`.
pub open spec fn is_first_position(names: Seq<&'static str>, name: Seq<char>, at: int) -> bool {
    &&& 0 <= at < names.len()
    &&& names[at]@ == name
    &&& forall|j: int| 0 <= j < at ==> (#[trigger] names[j])@ != name
}

impl<H> SymbolTable<H> {
    #[verifier::type_invariant]
    spec fn complete(self) -> bool {
        self.names@.len() == self.addresses@.len()
    }

    /// The handle this table was loaded from and keeps open.
    pub closed spec fn library(&self) -> H {
        *self.library
    }

    /// The symbol names, in table order.
    pub closed spec fn names(&self) -> Seq<&'static str> {
        self.names@
    }

    /// The resolved addresses, in table order.
    pub closed spec fn addresses(&self) -> Seq<usize> {
        self.addresses@
    }

    /// Looks every symbol up, in order, and builds the table if and only if
    /// all of them were found. The first symbol that is missing ends the
    /// work: its error is returned and no table exists.
    pub fn load<L: Fn(&H, &str) -> Result<usize, Error>>(
        library: Arc<H>,
        symbols: &[&'static str],
        lookup: &L,
    ) -> (loaded: Result<Arc<SymbolTable<H>>, Error>)
        requires
            can_resolve(&*library, symbols@, *lookup),
        ensures
            load_result(&*library, symbols@, *lookup, loaded),
    {
        let handle: &H = &*library;
        let mut names: Vec<&'static str> = Vec::new();
        let mut addresses: Vec<usize> = Vec::new();
        let mut index: usize = 0;
        while index < symbols.len()
            invariant
                index <= symbols.len(),
                *handle == *library,
                can_resolve(handle, symbols@, *lookup),
                names@ == symbols@.take(index as int),
                addresses@.len() == index,
                forall|i: int|
                    0 <= i < index ==> resolves_to(
                        handle,
                        symbols@,
                        *lookup,
                        i,
                        #[trigger] addresses@[i],
                    ),
            decreases symbols.len() - index,
        {
            match lookup(handle, symbols[index]) {
                Ok(address) => {
                    names.push(symbols[index]);
                    addresses.push(address);
                    assert(names@ == symbols@.take(index as int + 1));
                },
                Err(error) => {
                    proof {
                        assert forall|j: int| 0 <= j < index implies #[trigger] may_resolve(
                            handle,
                            symbols@,
                            *lookup,
                            j,
                        ) by {
                            assert(resolves_to(handle, symbols@, *lookup, j, addresses@[j]));
                        }
                        assert(fails_first_at(handle, symbols@, *lookup, index as int, error));
                        assert(load_fails_with(handle, symbols@, *lookup, error));
                    }
                    return Err(error);
                },
            }
            index += 1;
        }
        assert(names@ == symbols@);
        Ok(Arc::new(SymbolTable { library, names, addresses }))
    }

    /// The handle this table keeps open.
    pub fn handle(&self) -> (handle: &H)
        ensures
            *handle == self.library(),
    {
        &*self.library
    }

    /// Another share of the handle this table keeps open.
    pub fn keeper(&self) -> (library: Arc<H>)
        ensures
            *library == self.library(),
    {
        self.library.clone()
    }

    /// How many entry points the table holds.
    pub fn len(&self) -> (count: usize)
        ensures
            count == self.addresses().len(),
            count == self.names().len(),
    {
        proof {
            use_type_invariant(self);
        }
        self.addresses.len()
    }

    /// The entry point at `index`, for an index inside the table.
    pub fn entry(&self, index: usize) -> (entry: Option<EntryPoint>)
        ensures
            index < self.addresses().len() ==> address_behind(entry) == Some(
                self.addresses()[index as int],
            ),
            index >= self.addresses().len() ==> entry is None,
    {
        if index < self.addresses.len() {
            Some(EntryPoint { address: self.addresses[index] })
        } else {
            None
        }
    }

    /// Where `name` stands in the table: its first position, or `None` for a
    /// name the table does not hold.
    pub fn index_of(&self, name: &str) -> (found: Option<usize>)
        ensures
            found matches Some(at) ==> self@.index_of(name@) == Some(at as int),
            found is None ==> self@.index_of(name@) is None,
    {
        let mut index: usize = 0;
        while index < self.names.len()
            invariant
                index <= self.names@.len(),
                forall|i: int| 0 <= i < index ==> (#[trigger] self.names@[i])@ != name@,
            decreases self.names@.len() - index,
        {
            if same_name(self.names[index], name) {
                proof {
                    let names = self@.names;
                    assert(names == self.names@);
                    assert(is_first_position(names, name@, index as int));
                    let chosen = choose|at: int| is_first_position(names, name@, at);
                    lemma_first_position_is_unique(names, name@, index as int, chosen);
                }
                return Some(index);
            }
            index += 1;
        }
        None
    }

    /// The entry point called `name`, or `None` for a name the table does
    /// not hold.
    pub fn entry_of(&self, name: &str) -> (entry: Option<EntryPoint>)
        ensures
            address_behind(entry) == self@.address_of(name@),
    {
        proof {
            use_type_invariant(self);
        }
        match self.index_of(name) {
            Some(at) => {
                assert(is_first_position(self.names@, name@, at as int));
                Some(EntryPoint { address: self.addresses[at] })
            },
            None => None,
        }
    }

    /// The symbol name at `index`, for an index inside the table.
    pub fn name(&self, index: usize) -> (name: Option<&'static str>)
        ensures
            index < self.names().len() ==> name == Some(self.names()[index as int]),
            index >= self.names().len() ==> name is None,
    {
        if index < self.names.len() {
            Some(self.names[index])
        } else {
            None
        }
    }
}

/// No partial table. If one required symbol can never be found, loading
/// cannot produce a table, whatever the other lookups answer.
pub proof fn lemma_missing_symbol_fails_load<H, L: Fn(&H, &str) -> Result<usize, Error>>(
    handle: &H,
    symbols: Seq<&'static str>,
    lookup: L,
    loaded: Result<Arc<SymbolTable<H>>, Error>,
    missing: int,
)
    requires
        load_result(handle, symbols, lookup, loaded),
        0 <= missing < symbols.len(),
        !may_resolve(handle, symbols, lookup, missing),
    ensures
        loaded is Err,
{
    if let Ok(table) = loaded {
        assert(resolves_to(handle, symbols, lookup, missing, table.addresses()[missing]));
    }
}

/// A failed load reports a symbol at or before every symbol that can never
/// be found: nothing past the first gap is looked at.
pub proof fn lemma_load_stops_at_first_gap<H, L: Fn(&H, &str) -> Result<usize, Error>>(
    handle: &H,
    symbols: Seq<&'static str>,
    lookup: L,
    error: Error,
    failed: int,
    missing: int,
)
    requires
        fails_first_at(handle, symbols, lookup, failed, error),
        0 <= missing < symbols.len(),
        !may_resolve(handle, symbols, lookup, missing),
    ensures
        failed <= missing,
{
    if missing < failed {
        assert(may_resolve(handle, symbols, lookup, missing));
    }
}

/// With a lookup that answers each name in one way only, loading has one
/// possible answer: the same table, entry for entry, or the same error.
pub proof fn lemma_load_is_determined<H, L: Fn(&H, &str) -> Result<usize, Error>>(
    handle: &H,
    symbols: Seq<&'static str>,
    lookup: L,
    first: Result<Arc<SymbolTable<H>>, Error>,
    second: Result<Arc<SymbolTable<H>>, Error>,
)
    requires
        load_result(handle, symbols, lookup, first),
        load_result(handle, symbols, lookup, second),
        forall|name: &str, a: Result<usize, Error>, b: Result<usize, Error>|
            call_ensures(lookup, (handle, name), a) && call_ensures(lookup, (handle, name), b)
                ==> a == b,
    ensures
        first is Ok <==> second is Ok,
        first matches Ok(a) ==> second matches Ok(b) && a@ == b@,
        first matches Err(e) ==> second matches Err(f) && e == f,
{
    match (first, second) {
        (Ok(a), Ok(b)) => {
            assert forall|i: int| 0 <= i < symbols.len() implies a.addresses()[i]
                == b.addresses()[i] by {
                assert(resolves_to(handle, symbols, lookup, i, a.addresses()[i]));
                assert(resolves_to(handle, symbols, lookup, i, b.addresses()[i]));
                assert(Ok::<usize, Error>(a.addresses()[i]) == Ok::<usize, Error>(
                    b.addresses()[i],
                ));
            }
            assert(a.addresses() =~= b.addresses());
        },
        (Ok(a), Err(f)) => {
            let at = choose|i: int| fails_first_at(handle, symbols, lookup, i, f);
            assert(resolves_to(handle, symbols, lookup, at, a.addresses()[at]));
            assert(Ok::<usize, Error>(a.addresses()[at]) == Err::<usize, Error>(f));
        },
        (Err(e), Ok(b)) => {
            let at = choose|i: int| fails_first_at(handle, symbols, lookup, i, e);
            assert(resolves_to(handle, symbols, lookup, at, b.addresses()[at]));
            assert(Ok::<usize, Error>(b.addresses()[at]) == Err::<usize, Error>(e));
        },
        (Err(e), Err(f)) => {
            let i = choose|i: int| fails_first_at(handle, symbols, lookup, i, e);
            let j = choose|j: int| fails_first_at(handle, symbols, lookup, j, f);
            if i < j {
                assert(may_resolve(handle, symbols, lookup, i));
                let address = choose|address: usize|
                    resolves_to(handle, symbols, lookup, i, address);
                assert(Ok::<usize, Error>(address) == Err::<usize, Error>(e));
            } else if j < i {
                assert(may_resolve(handle, symbols, lookup, j));
                let address = choose|address: usize|
                    resolves_to(handle, symbols, lookup, j, address);
                assert(Ok::<usize, Error>(address) == Err::<usize, Error>(f));
            } else {
                assert(Err::<usize, Error>(e) == Err::<usize, Error>(f));
            }
        },
    }
}

} // verus!
