use libloading::Error;
use pulse_sys::symbols::{PULSE_MAINLOOP_GLIB_SYMBOLS, PULSE_SIMPLE_SYMBOLS, PULSE_SYMBOLS};
use pulse_sys::table::{same_name, SymbolTable};
use std::cell::RefCell;
use std::collections::HashSet;
use std::sync::Arc;

/// A library that exports every name but those in `missing`; the address of
/// a name is 0x1000 plus 8 times its position in `symbols`.
fn exports<'a>(
    symbols: &'a [&'static str],
    missing: &'a [&'a str],
    asked: &'a RefCell<Vec<String>>,
) -> impl Fn(&(), &str) -> Result<usize, Error> + 'a {
    move |_: &(), name: &str| {
        asked.borrow_mut().push(name.to_string());
        if missing.contains(&name) {
            return Err(Error::DlSymUnknown);
        }
        match symbols.iter().position(|s| *s == name) {
            Some(at) => Ok(0x1000 + 8 * at),
            None => Err(Error::DlSymUnknown),
        }
    }
}

#[test]
fn symbol_lists_have_their_exact_sizes() {
    assert_eq!(PULSE_SYMBOLS.len(), 372);
    assert_eq!(PULSE_SIMPLE_SYMBOLS.len(), 7);
    assert_eq!(PULSE_MAINLOOP_GLIB_SYMBOLS.len(), 3);
}

#[test]
fn symbol_names_are_exact() {
    assert_eq!(PULSE_SYMBOLS[0], "pa_stream_connect_upload");
    assert_eq!(PULSE_SYMBOLS[371], "pa_operation_set_state_callback");
    assert!(PULSE_SYMBOLS.contains(&"pa_context_new"));
    assert!(PULSE_SYMBOLS.contains(&"pa_stream_write"));
    assert!(PULSE_SYMBOLS.contains(&"pa_cvolume_set"));
    assert!(PULSE_SYMBOLS.contains(&"pa_xmalloc"));
    assert_eq!(
        PULSE_SIMPLE_SYMBOLS,
        [
            "pa_simple_new",
            "pa_simple_free",
            "pa_simple_write",
            "pa_simple_drain",
            "pa_simple_read",
            "pa_simple_get_latency",
            "pa_simple_flush",
        ]
    );
    assert_eq!(
        PULSE_MAINLOOP_GLIB_SYMBOLS,
        ["pa_glib_mainloop_new", "pa_glib_mainloop_free", "pa_glib_mainloop_get_api"]
    );
}

#[test]
fn symbol_names_are_distinct_and_well_formed() {
    let mut seen = HashSet::new();
    for name in PULSE_SYMBOLS.iter().chain(PULSE_SIMPLE_SYMBOLS.iter()).chain(
        PULSE_MAINLOOP_GLIB_SYMBOLS.iter(),
    ) {
        assert!(name.starts_with("pa_"), "{}", name);
        assert!(name.bytes().all(|b| b.is_ascii_alphanumeric() || b == b'_'), "{}", name);
        assert!(seen.insert(*name), "{} is listed twice", name);
    }
}

#[test]
fn load_builds_the_whole_table_in_symbol_order() {
    let asked = RefCell::new(Vec::new());
    let table = SymbolTable::load(Arc::new(()), &PULSE_SIMPLE_SYMBOLS, &exports(&PULSE_SIMPLE_SYMBOLS, &[], &asked))
        .expect("every symbol is exported");
    assert_eq!(table.len(), 7);
    for at in 0..7 {
        assert_eq!(table.name(at), Some(PULSE_SIMPLE_SYMBOLS[at]));
        assert_eq!(table.entry(at).map(|e| e.address()), Some(0x1000 + 8 * at));
    }
    assert_eq!(table.entry(2).map(|e| e.address()), Some(0x1010));
    assert_eq!(asked.borrow().len(), 7);
    assert_eq!(asked.borrow()[0], "pa_simple_new");
    assert_eq!(asked.borrow()[6], "pa_simple_flush");
}

#[test]
fn load_of_the_full_client_library_resolves_every_symbol() {
    let asked = RefCell::new(Vec::new());
    let table = SymbolTable::load(Arc::new(()), &PULSE_SYMBOLS, &exports(&PULSE_SYMBOLS, &[], &asked))
        .expect("every symbol is exported");
    assert_eq!(table.len(), 372);
    assert_eq!(table.name(371), Some("pa_operation_set_state_callback"));
    assert_eq!(table.entry(371).map(|e| e.address()), Some(0x1000 + 8 * 371));
}

#[test]
fn one_missing_symbol_means_no_table_at_all() {
    for missing in PULSE_SIMPLE_SYMBOLS.iter() {
        let asked = RefCell::new(Vec::new());
        let gap = [*missing];
        let loaded =
            SymbolTable::load(Arc::new(()), &PULSE_SIMPLE_SYMBOLS, &exports(&PULSE_SIMPLE_SYMBOLS, &gap, &asked));
        assert!(loaded.is_err(), "a table came out although {} is missing", missing);
    }
}

#[test]
fn load_stops_at_the_first_missing_symbol() {
    let asked = RefCell::new(Vec::new());
    let gap = ["pa_simple_drain", "pa_simple_flush"];
    let loaded =
        SymbolTable::load(Arc::new(()), &PULSE_SIMPLE_SYMBOLS, &exports(&PULSE_SIMPLE_SYMBOLS, &gap, &asked));
    let error = loaded.err().expect("two symbols are missing");
    assert!(matches!(error, Error::DlSymUnknown));
    assert_eq!(
        *asked.borrow(),
        vec![
            "pa_simple_new".to_string(),
            "pa_simple_free".to_string(),
            "pa_simple_write".to_string(),
            "pa_simple_drain".to_string(),
        ]
    );
}

#[test]
fn load_returns_the_error_of_the_failed_lookup() {
    let lookup = |_: &(), name: &str| -> Result<usize, Error> {
        if name == "pa_glib_mainloop_free" {
            Err(Error::IncompatibleSize)
        } else {
            Ok(64)
        }
    };
    let loaded = SymbolTable::load(Arc::new(()), &PULSE_MAINLOOP_GLIB_SYMBOLS, &lookup);
    assert!(matches!(loaded, Err(Error::IncompatibleSize)));
}

#[test]
fn load_of_no_symbols_gives_an_empty_table() {
    let symbols: [&'static str; 0] = [];
    let lookup = |_: &(), _: &str| -> Result<usize, Error> { panic!("nothing to look up") };
    let table = SymbolTable::load(Arc::new(()), &symbols, &lookup).expect("nothing can be missing");
    assert_eq!(table.len(), 0);
    assert_eq!(table.entry(0).map(|e| e.address()), None);
    assert_eq!(table.name(0), None);
}

#[test]
fn table_has_nothing_outside_its_range() {
    let asked = RefCell::new(Vec::new());
    let table = SymbolTable::load(Arc::new(()),
        &PULSE_MAINLOOP_GLIB_SYMBOLS,
        &exports(&PULSE_MAINLOOP_GLIB_SYMBOLS, &[], &asked),
    )
    .expect("every symbol is exported");
    assert_eq!(table.entry(2).map(|e| e.address()), Some(0x1010));
    assert_eq!(table.entry(3).map(|e| e.address()), None);
    assert_eq!(table.name(3), None);
    assert_eq!(table.entry(usize::MAX).map(|e| e.address()), None);
}

#[test]
fn a_name_is_found_at_its_first_position() {
    let symbols = ["first", "twice", "other", "twice"];
    let lookup = |_: &(), name: &str| -> Result<usize, Error> { Ok(name.len() * 16 + symbols.len()) };
    let table = SymbolTable::load(Arc::new(()), &symbols, &lookup).expect("every symbol is exported");
    assert_eq!(table.index_of("first"), Some(0));
    assert_eq!(table.index_of("twice"), Some(1));
    assert_eq!(table.index_of("other"), Some(2));
    assert_eq!(table.index_of("twic"), None);
    assert_eq!(table.index_of("twice "), None);
    assert_eq!(table.index_of(""), None);
    assert_eq!(table.entry_of("twice").map(|e| e.address()), Some(84));
    assert!(table.entry_of("missing").is_none());
}

#[test]
fn names_are_compared_byte_for_byte() {
    assert!(same_name("pa_context_new", "pa_context_new"));
    assert!(same_name("", ""));
    assert!(!same_name("pa_context_new", "pa_context_ne"));
    assert!(!same_name("pa_context_new", "pa_context_nex"));
    assert!(!same_name("pa_context_new", "PA_CONTEXT_NEW"));
    assert!(!same_name("", "a"));
    assert!(same_name("lautst\u{e4}rke", "lautst\u{e4}rke"));
    assert!(!same_name("lautst\u{e4}rke", "lautstarke"));
}
