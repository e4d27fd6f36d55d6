use libloading::{Error, Library};
use pulse_sys::library::TargetLibrary;
use pulse_sys::resolution::ResolutionOutcome;
use pulse_sys::resolver::{attempt, resolve, Resolver};
use pulse_sys::symbols::PULSE_SYMBOLS;
use std::cell::RefCell;
use std::sync::atomic::{AtomicUsize, Ordering};
use std::sync::Arc;

/// A handle that is safe to make in a test: the running program itself.
fn handle() -> Library {
    Library::from(libloading::os::unix::Library::this())
}

/// A small library description for simulated hosts.
fn demo() -> TargetLibrary {
    TargetLibrary {
        label: "demo",
        candidates: vec!["libdemo.so.1", "libdemo.so"],
        symbols: vec!["demo_new", "demo_run", "demo_free"],
    }
}

fn address_in_demo(name: &str) -> Result<usize, Error> {
    match name {
        "demo_new" => Ok(0x100),
        "demo_run" => Ok(0x200),
        "demo_free" => Ok(0x300),
        _ => Err(Error::DlSymUnknown),
    }
}

#[test]
fn host_without_the_library_gets_nothing_and_no_retry() {
    let opens = AtomicUsize::new(0);
    let lookups = AtomicUsize::new(0);
    let reports = AtomicUsize::new(0);
    let resolver = Resolver::new(
        TargetLibrary::pulse(),
        |_: &str| -> Result<Library, Error> {
            opens.fetch_add(1, Ordering::SeqCst);
            Err(Error::DlOpenUnknown)
        },
        |_: &Library, _: &str| -> Result<usize, Error> {
            lookups.fetch_add(1, Ordering::SeqCst);
            Err(Error::DlSymUnknown)
        },
        |_: &str| {
            reports.fetch_add(1, Ordering::SeqCst);
        },
    );
    assert!(resolver.get_functions().is_none());
    assert_eq!(opens.load(Ordering::SeqCst), 2);
    for _ in 0..5 {
        assert!(resolver.get_functions().is_none());
        assert!(resolver.init().is_err());
        assert!(resolver.get_library().is_none());
    }
    assert_eq!(opens.load(Ordering::SeqCst), 2);
    assert_eq!(lookups.load(Ordering::SeqCst), 0);
    assert_eq!(reports.load(Ordering::SeqCst), 0);
}

#[test]
fn init_names_the_library_that_is_unavailable() {
    let never = |_: &str| -> Result<Library, Error> { Err(Error::DlOpenUnknown) };
    let no_symbol = |_: &Library, _: &str| -> Result<usize, Error> { Err(Error::DlSymUnknown) };
    let silent = |_: &str| {};
    let pulse = Resolver::new(TargetLibrary::pulse(), never, no_symbol, silent);
    assert_eq!(pulse.init().err().map(|e| e.message), Some("Failed to load pulse library".to_string()));
    let simple = Resolver::new(TargetLibrary::pulse_simple(), never, no_symbol, silent);
    assert_eq!(
        simple.init().err().map(|e| e.message),
        Some("Failed to load pulse-simple library".to_string())
    );
    let glib = Resolver::new(TargetLibrary::pulse_mainloop_glib(), never, no_symbol, silent);
    assert_eq!(
        glib.init().err().map(|e| e.message),
        Some("Failed to load libpulse-mainloop-glib library".to_string())
    );
}

#[test]
fn first_use_resolves_once_and_every_call_shares_the_table() {
    let opened = RefCell::new(Vec::new());
    let asked = RefCell::new(Vec::new());
    let resolver = Resolver::new(
        demo(),
        |name: &str| -> Result<Library, Error> {
            opened.borrow_mut().push(name.to_string());
            Ok(handle())
        },
        |_: &Library, name: &str| -> Result<usize, Error> {
            asked.borrow_mut().push(name.to_string());
            address_in_demo(name)
        },
        |message: &str| panic!("nothing to report, got {}", message),
    );
    let first = resolver.get_functions().expect("the library is complete");
    assert_eq!(first.len(), 3);
    assert_eq!(first.entry(0).map(|e| e.address()), Some(0x100));
    assert_eq!(first.entry(1).map(|e| e.address()), Some(0x200));
    assert_eq!(first.entry(2).map(|e| e.address()), Some(0x300));
    assert_eq!(first.entry_of("demo_run").map(|e| e.address()), Some(0x200));
    assert_eq!(first.entry_of("demo_stop").map(|e| e.address()), None);
    assert!(resolver.init().is_ok());
    for _ in 0..4 {
        let again = resolver.get_functions().expect("the outcome does not change");
        assert!(Arc::ptr_eq(&first, &again));
    }
    assert!(resolver.get_library().is_some());
    assert_eq!(*opened.borrow(), vec!["libdemo.so.1".to_string()]);
    assert_eq!(
        *asked.borrow(),
        vec!["demo_new".to_string(), "demo_run".to_string(), "demo_free".to_string()]
    );
}

#[test]
fn many_callers_share_one_attempt() {
    let opens = AtomicUsize::new(0);
    let lookups = AtomicUsize::new(0);
    let resolver = Resolver::new(
        demo(),
        |_: &str| -> Result<Library, Error> {
            opens.fetch_add(1, Ordering::SeqCst);
            Ok(handle())
        },
        |_: &Library, name: &str| -> Result<usize, Error> {
            lookups.fetch_add(1, Ordering::SeqCst);
            address_in_demo(name)
        },
        |_: &str| {},
    );
    let mut tables = Vec::new();
    for round in 0..16 {
        let table = match round % 3 {
            0 => resolver.get_functions(),
            1 => resolver.init().ok().and_then(|_| resolver.get_functions()),
            _ => resolver.get_library().and_then(|_| resolver.get_functions()),
        };
        tables.push(table.expect("the library is complete"));
        tables.push(resolver.outcome().table().expect("the outcome has been recorded"));
    }
    assert_eq!(tables.len(), 32);
    for table in tables.iter() {
        assert!(Arc::ptr_eq(table, &tables[0]));
    }
    assert_eq!(opens.load(Ordering::SeqCst), 1);
    assert_eq!(lookups.load(Ordering::SeqCst), 3);
}

#[test]
fn missing_symbol_is_reported_once_and_leaves_no_table() {
    let reported = RefCell::new(Vec::new());
    let asked = RefCell::new(Vec::new());
    let resolver = Resolver::new(
        demo(),
        |_: &str| -> Result<Library, Error> { Ok(handle()) },
        |_: &Library, name: &str| -> Result<usize, Error> {
            asked.borrow_mut().push(name.to_string());
            if name == "demo_run" {
                Err(Error::DlSymUnknown)
            } else {
                address_in_demo(name)
            }
        },
        |message: &str| reported.borrow_mut().push(message.to_string()),
    );
    assert!(resolver.get_functions().is_none());
    assert!(resolver.get_functions().is_none());
    assert_eq!(
        resolver.init().err().map(|e| e.message),
        Some("Failed to load demo library".to_string())
    );
    assert!(resolver.get_library().is_some(), "the opened library is kept");
    assert_eq!(
        *reported.borrow(),
        vec!["Failed to load demo functions: dlsym failed, but system did not report the error"
            .to_string()]
    );
    assert_eq!(*asked.borrow(), vec!["demo_new".to_string(), "demo_run".to_string()]);
}

#[test]
fn resolver_moves_once_from_the_initial_state() {
    let resolver = Resolver::new(
        demo(),
        |_: &str| -> Result<Library, Error> { Ok(handle()) },
        |_: &Library, name: &str| -> Result<usize, Error> { address_in_demo(name) },
        |_: &str| {},
    );
    assert!(matches!(resolver.outcome(), ResolutionOutcome::NotYetAttempted));
    assert!(matches!(resolver.outcome(), ResolutionOutcome::NotYetAttempted));
    let table = resolver.get_functions().expect("the library is complete");
    match resolver.outcome() {
        ResolutionOutcome::Succeeded(seen) => assert!(Arc::ptr_eq(&seen, &table)),
        _ => panic!("the resolver has succeeded"),
    }
    assert!(resolver.outcome().table().is_some());

    let failing = Resolver::new(
        demo(),
        |_: &str| -> Result<Library, Error> { Err(Error::DlOpenUnknown) },
        |_: &Library, name: &str| -> Result<usize, Error> { address_in_demo(name) },
        |_: &str| {},
    );
    assert!(matches!(failing.outcome(), ResolutionOutcome::NotYetAttempted));
    assert!(failing.init().is_err());
    assert!(matches!(failing.outcome(), ResolutionOutcome::PermanentlyFailed));
    assert!(failing.outcome().table().is_none());
    assert!(failing.get_functions().is_none());
    assert!(matches!(failing.outcome(), ResolutionOutcome::PermanentlyFailed));
}

#[test]
fn library_that_appears_later_is_not_picked_up() {
    let installed = AtomicUsize::new(0);
    let resolver = Resolver::new(
        demo(),
        |_: &str| -> Result<Library, Error> {
            if installed.load(Ordering::SeqCst) == 1 {
                Ok(handle())
            } else {
                Err(Error::DlOpenUnknown)
            }
        },
        |_: &Library, name: &str| -> Result<usize, Error> { address_in_demo(name) },
        |_: &str| {},
    );
    assert!(resolver.get_functions().is_none());
    installed.store(1, Ordering::SeqCst);
    assert!(resolver.get_functions().is_none());
    assert!(resolver.init().is_err());
}

#[test]
fn get_library_alone_triggers_the_attempt() {
    let opens = AtomicUsize::new(0);
    let resolver = Resolver::new(
        demo(),
        |_: &str| -> Result<Library, Error> {
            opens.fetch_add(1, Ordering::SeqCst);
            Ok(handle())
        },
        |_: &Library, name: &str| -> Result<usize, Error> { address_in_demo(name) },
        |_: &str| {},
    );
    assert!(resolver.get_library().is_some());
    assert!(resolver.get_library().is_some());
    assert_eq!(opens.load(Ordering::SeqCst), 1);
    assert!(matches!(resolver.outcome(), ResolutionOutcome::Succeeded(_)));
}

#[test]
fn resolve_opens_the_versioned_name_and_never_the_other() {
    let opened = RefCell::new(Vec::new());
    let resolution = resolve(
        &demo(),
        &|name: &str| -> Result<Library, Error> {
            opened.borrow_mut().push(name.to_string());
            Ok(handle())
        },
        &|_: &Library, name: &str| -> Result<usize, Error> { address_in_demo(name) },
        &|_: &str| {},
    );
    assert_eq!(resolution.candidate(), Some(0));
    assert!(resolution.library().is_some());
    assert_eq!(resolution.functions().map(|t| t.len()), Some(3));
    assert_eq!(*opened.borrow(), vec!["libdemo.so.1".to_string()]);
}

#[test]
fn resolve_falls_back_to_the_unversioned_name() {
    let resolution = resolve(
        &demo(),
        &|name: &str| -> Result<Library, Error> {
            if name == "libdemo.so" {
                Ok(handle())
            } else {
                Err(Error::DlOpenUnknown)
            }
        },
        &|_: &Library, name: &str| -> Result<usize, Error> { address_in_demo(name) },
        &|_: &str| {},
    );
    assert_eq!(resolution.candidate(), Some(1));
    assert!(matches!(resolution.outcome(), ResolutionOutcome::Succeeded(_)));
}

#[test]
fn resolve_without_a_library_looks_nothing_up() {
    let resolution = resolve(
        &demo(),
        &|_: &str| -> Result<Library, Error> { Err(Error::DlOpenUnknown) },
        &|_: &Library, _: &str| -> Result<usize, Error> { panic!("there is no library to ask") },
        &|message: &str| panic!("a missing library is not reported, got {}", message),
    );
    assert_eq!(resolution.candidate(), None);
    assert!(resolution.library().is_none());
    assert!(resolution.functions().is_none());
    assert!(matches!(resolution.outcome(), ResolutionOutcome::PermanentlyFailed));
}

#[test]
fn resolve_of_the_full_client_library() {
    let resolution = resolve(
        &TargetLibrary::pulse(),
        &|name: &str| -> Result<Library, Error> {
            if name == "libpulse.so.0" {
                Ok(handle())
            } else {
                Err(Error::DlOpenUnknown)
            }
        },
        &|_: &Library, name: &str| -> Result<usize, Error> {
            PULSE_SYMBOLS.iter().position(|s| *s == name).map(|at| 4096 + at).ok_or(Error::DlSymUnknown)
        },
        &|_: &str| {},
    );
    let table = resolution.functions().expect("every symbol is exported");
    assert_eq!(table.len(), 372);
    assert_eq!(table.entry_of("pa_stream_connect_upload").map(|e| e.address()), Some(4096));
    assert_eq!(table.entry_of("pa_operation_set_state_callback").map(|e| e.address()), Some(4096 + 371));
    assert_eq!(table.index_of("pa_context_new"), PULSE_SYMBOLS.iter().position(|s| *s == "pa_context_new"));
}

#[test]
fn operations_on_a_host_without_the_library() {
    let resolver = Resolver::new(
        TargetLibrary::pulse(),
        |_: &str| -> Result<Library, Error> { Err(Error::DlOpenUnknown) },
        |_: &Library, _: &str| -> Result<usize, Error> { panic!("there is no library to ask") },
        |message: &str| panic!("a missing library is not reported, got {}", message),
    );
    let context = pulse_sys::fallback::pointer_or(resolver.entry_point("pa_context_new"), |_| {
        panic!("no native call without a table")
    });
    let connected = pulse_sys::fallback::status_or(resolver.entry_point("pa_context_connect"), |_| {
        panic!("no native call without a table")
    });
    let state = pulse_sys::fallback::context_state_or(
        resolver.entry_point("pa_context_get_state"),
        |_| panic!("no native call without a table"),
    );
    assert_eq!(context, 0);
    assert_eq!(connected, -1);
    assert_eq!(state, pulse_sys::context::pa_context_state_t::Unconnected);
    assert!(matches!(resolver.outcome(), ResolutionOutcome::PermanentlyFailed));
}

#[test]
fn operations_on_a_host_with_the_library_reach_their_entry_points() {
    let resolver = Resolver::new(
        demo(),
        |_: &str| -> Result<Library, Error> { Ok(handle()) },
        |_: &Library, name: &str| -> Result<usize, Error> { address_in_demo(name) },
        |_: &str| {},
    );
    assert_eq!(resolver.entry_point("demo_new").map(|e| e.address()), Some(0x100));
    assert_eq!(resolver.entry_point("demo_free").map(|e| e.address()), Some(0x300));
    assert!(resolver.entry_point("demo_missing").is_none());
    let answer = pulse_sys::fallback::status_or(resolver.entry_point("demo_run"), |entry| {
        assert_eq!(entry.address(), 0x200);
        7
    });
    assert_eq!(answer, 7);
}

#[test]
fn state_read_from_the_cell() {
    assert!(matches!(ResolutionOutcome::read(None), ResolutionOutcome::NotYetAttempted));

    let absent = pulse_sys::resolution::Resolution::absent();
    assert!(matches!(ResolutionOutcome::read(Some(&absent)), ResolutionOutcome::PermanentlyFailed));

    let mismatched = pulse_sys::resolution::Resolution::mismatched(1, Arc::new(handle()));
    assert!(matches!(
        ResolutionOutcome::read(Some(&mismatched)),
        ResolutionOutcome::PermanentlyFailed
    ));

    let symbols = ["demo_new", "demo_run", "demo_free"];
    let lookup = |_: &Library, name: &str| -> Result<usize, Error> { address_in_demo(name) };
    let table = pulse_sys::table::SymbolTable::load(Arc::new(handle()), &symbols, &lookup)
        .expect("every symbol is exported");
    let ready = pulse_sys::resolution::Resolution::ready(0, table.clone());
    assert!(std::ptr::eq(ready.library().expect("the table has a library"), table.handle()));
    match ResolutionOutcome::read(Some(&ready)) {
        ResolutionOutcome::Succeeded(seen) => assert!(Arc::ptr_eq(&seen, &table)),
        _ => panic!("an outcome with a table is a success"),
    }
}

#[test]
fn every_call_lends_the_same_handle() {
    let resolver = Resolver::new(
        demo(),
        |_: &str| -> Result<Library, Error> { Ok(handle()) },
        |_: &Library, name: &str| -> Result<usize, Error> { address_in_demo(name) },
        |_: &str| {},
    );
    let first = resolver.get_library().expect("the library opens");
    assert!(resolver.get_functions().is_some());
    let second = resolver.get_library().expect("the library stays open");
    assert!(std::ptr::eq(first, second));

    let without = Resolver::new(
        demo(),
        |_: &str| -> Result<Library, Error> { Err(Error::DlOpenUnknown) },
        |_: &Library, name: &str| -> Result<usize, Error> { address_in_demo(name) },
        |_: &str| {},
    );
    assert!(without.get_library().is_none());
    assert!(without.get_library().is_none());
}

#[test]
fn attempt_has_a_diagnostic_for_a_missing_symbol_only() {
    let open = |_: &str| -> Result<Library, Error> { Ok(handle()) };
    let closed = |_: &str| -> Result<Library, Error> { Err(Error::DlOpenUnknown) };
    let whole = |_: &Library, name: &str| -> Result<usize, Error> { address_in_demo(name) };
    let holed = |_: &Library, name: &str| -> Result<usize, Error> {
        if name == "demo_free" {
            Err(Error::DlSymUnknown)
        } else {
            address_in_demo(name)
        }
    };

    let (ready, nothing) = attempt(&demo(), &open, &whole);
    assert!(ready.functions().is_some());
    assert_eq!(nothing, None);

    let (absent, nothing) = attempt(&demo(), &closed, &whole);
    assert!(absent.library().is_none());
    assert!(absent.functions().is_none());
    assert_eq!(nothing, None);

    let (mismatched, diagnostic) = attempt(&demo(), &open, &holed);
    assert!(mismatched.library().is_some());
    assert!(mismatched.functions().is_none());
    assert_eq!(
        diagnostic,
        Some(
            "Failed to load demo functions: dlsym failed, but system did not report the error"
                .to_string()
        )
    );
}

#[test]
fn resolve_reports_exactly_the_diagnostic_of_the_attempt() {
    let reported = RefCell::new(Vec::new());
    let open = |_: &str| -> Result<Library, Error> { Ok(handle()) };
    let holed = |_: &Library, _: &str| -> Result<usize, Error> { Err(Error::IncompatibleSize) };
    let (_, diagnostic) = attempt(&demo(), &open, &holed);
    let resolution = resolve(&demo(), &open, &holed, &|message: &str| {
        reported.borrow_mut().push(message.to_string())
    });
    assert!(resolution.functions().is_none());
    assert_eq!(reported.borrow().len(), 1);
    assert_eq!(Some(reported.borrow()[0].clone()), diagnostic);
}

#[test]
fn table_keeps_the_library_the_resolver_settled_on() {
    let resolver = Resolver::new(
        demo(),
        |_: &str| -> Result<Library, Error> { Ok(handle()) },
        |_: &Library, name: &str| -> Result<usize, Error> { address_in_demo(name) },
        |_: &str| {},
    );
    let table = resolver.get_functions().expect("the library is complete");
    let lent = resolver.get_library().expect("the library opened");
    assert!(std::ptr::eq(table.handle(), lent));
    let shares = Arc::strong_count(&table.keeper());
    drop(resolver);
    assert_eq!(Arc::strong_count(&table.keeper()), shares - 1);
    assert_eq!(table.entry_of("demo_run").map(|e| e.address()), Some(0x200));
}
