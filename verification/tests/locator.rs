use pulse_sys::library::{
    TargetLibrary, PULSE_CANDIDATES, PULSE_MAINLOOP_GLIB_CANDIDATES, PULSE_SIMPLE_CANDIDATES,
};
use pulse_sys::locator::locate;
use pulse_sys::symbols::{PULSE_MAINLOOP_GLIB_SYMBOLS, PULSE_SIMPLE_SYMBOLS, PULSE_SYMBOLS};
use std::cell::RefCell;

/// A host on which exactly the files in `present` can be opened. Every
/// probe is written down; the handle is the name that opened.
fn host<'a>(
    present: &'a [&'a str],
    probed: &'a RefCell<Vec<String>>,
) -> impl Fn(&str) -> Result<String, &'static str> + 'a {
    move |name: &str| {
        probed.borrow_mut().push(name.to_string());
        if present.contains(&name) {
            Ok(name.to_string())
        } else {
            Err("cannot open shared object file")
        }
    }
}

#[test]
fn candidate_names_are_exact() {
    assert_eq!(PULSE_CANDIDATES, ["libpulse.so.0", "libpulse.so"]);
    assert_eq!(PULSE_SIMPLE_CANDIDATES, ["libpulse-simple.so.0", "libpulse-simple.so"]);
    assert_eq!(
        PULSE_MAINLOOP_GLIB_CANDIDATES,
        ["libpulse-mainloop-glib.so.0", "libpulse-mainloop-glib.so"]
    );
}

#[test]
fn target_libraries_carry_their_candidates_in_order() {
    assert_eq!(TargetLibrary::pulse().candidates, vec!["libpulse.so.0", "libpulse.so"]);
    assert_eq!(
        TargetLibrary::pulse_simple().candidates,
        vec!["libpulse-simple.so.0", "libpulse-simple.so"]
    );
    assert_eq!(
        TargetLibrary::pulse_mainloop_glib().candidates,
        vec!["libpulse-mainloop-glib.so.0", "libpulse-mainloop-glib.so"]
    );
}

#[test]
fn target_libraries_carry_their_symbols_and_labels() {
    assert_eq!(TargetLibrary::pulse().symbols, PULSE_SYMBOLS.to_vec());
    assert_eq!(TargetLibrary::pulse_simple().symbols, PULSE_SIMPLE_SYMBOLS.to_vec());
    assert_eq!(TargetLibrary::pulse_mainloop_glib().symbols, PULSE_MAINLOOP_GLIB_SYMBOLS.to_vec());
    assert_eq!(TargetLibrary::pulse().label, "pulse");
    assert_eq!(TargetLibrary::pulse_simple().label, "pulse-simple");
    assert_eq!(TargetLibrary::pulse_mainloop_glib().label, "libpulse-mainloop-glib");
}

#[test]
fn versioned_candidate_is_the_unversioned_one_with_its_version() {
    for list in [PULSE_CANDIDATES, PULSE_SIMPLE_CANDIDATES, PULSE_MAINLOOP_GLIB_CANDIDATES] {
        assert_eq!(list[0], format!("{}.0", list[1]));
        assert!(list[1].ends_with(".so"));
    }
}

#[test]
fn versioned_name_wins_when_both_are_present() {
    let probed = RefCell::new(Vec::new());
    let present = ["libpulse.so.0", "libpulse.so"];
    let found = locate(&PULSE_CANDIDATES, &host(&present, &probed));
    assert_eq!(found, Some((0, "libpulse.so.0".to_string())));
    assert_eq!(*probed.borrow(), vec!["libpulse.so.0".to_string()]);
}

#[test]
fn unversioned_name_is_used_when_the_versioned_one_is_missing() {
    let probed = RefCell::new(Vec::new());
    let present = ["libpulse.so"];
    let found = locate(&PULSE_CANDIDATES, &host(&present, &probed));
    assert_eq!(found, Some((1, "libpulse.so".to_string())));
    assert_eq!(*probed.borrow(), vec!["libpulse.so.0".to_string(), "libpulse.so".to_string()]);
}

#[test]
fn library_is_absent_only_after_every_candidate_failed() {
    let probed = RefCell::new(Vec::new());
    let present: [&str; 0] = [];
    let found = locate(&PULSE_SIMPLE_CANDIDATES, &host(&present, &probed));
    assert_eq!(found, None);
    assert_eq!(
        *probed.borrow(),
        vec!["libpulse-simple.so.0".to_string(), "libpulse-simple.so".to_string()]
    );
}

#[test]
fn search_stops_at_the_first_candidate_that_opens() {
    let probed = RefCell::new(Vec::new());
    let candidates = ["a.so.2", "a.so.1", "a.so.0", "a.so"];
    let present = ["a.so.0", "a.so"];
    let found = locate(&candidates, &host(&present, &probed));
    assert_eq!(found, Some((2, "a.so.0".to_string())));
    assert_eq!(probed.borrow().len(), 3);
}

#[test]
fn empty_candidate_list_finds_nothing_and_probes_nothing() {
    let probed = RefCell::new(Vec::new());
    let candidates: [&'static str; 0] = [];
    let present = ["libpulse.so"];
    let found = locate(&candidates, &host(&present, &probed));
    assert_eq!(found, None);
    assert!(probed.borrow().is_empty());
}
