use pulse_sys::context::pa_context_state_t;
use pulse_sys::fallback::{
    call_or, context_state_or, count_or, encoding_or, flag_or, integer_or,
    is_predicate_operation, pointer_or, prop_type_or, size_or, status_or, unit_or, usec_or,
    volume_or, FLAG_UNSET, NULL_ADDRESS, PREDICATES, STATUS_FAILED,
};
use pulse_sys::format::{pa_encoding_t, pa_prop_type_t};
use pulse_sys::symbols::PULSE_SYMBOLS;
use pulse_sys::volume::PA_VOLUME_MUTED;
use std::cell::Cell;

/// Stands for a table that must never be used.
type NoTable = Option<&'static str>;

#[test]
fn sentinels_have_their_documented_values() {
    assert_eq!(NULL_ADDRESS, 0);
    assert_eq!(STATUS_FAILED, -1);
    assert_eq!(FLAG_UNSET, 0);
    assert_eq!(PA_VOLUME_MUTED, 0);
}

#[test]
fn absent_library_scenario() {
    let absent: NoTable = None;
    let pointer = pointer_or(absent, |_| -> usize { panic!("no native call without a table") });
    let status = status_or(absent, |_| -> i32 { panic!("no native call without a table") });
    let state = context_state_or(absent, |_| -> pa_context_state_t {
        panic!("no native call without a table")
    });
    assert_eq!(pointer, 0);
    assert_eq!(status, -1);
    assert_eq!(state, pa_context_state_t::Unconnected);
}

#[test]
fn every_result_type_has_its_sentinel_without_a_table() {
    let absent: NoTable = None;
    assert_eq!(pointer_or(absent, |_| -> usize { panic!("called") }), 0);
    assert_eq!(status_or(absent, |_| -> i32 { panic!("called") }), -1);
    assert_eq!(flag_or(absent, |_| -> i32 { panic!("called") }), 0);
    assert_eq!(count_or(absent, |_| -> u32 { panic!("called") }), 0);
    assert_eq!(size_or(absent, |_| -> usize { panic!("called") }), 0);
    assert_eq!(usec_or(absent, |_| -> u64 { panic!("called") }), 0);
    assert_eq!(volume_or(absent, |_| -> u32 { panic!("called") }), PA_VOLUME_MUTED);
    assert_eq!(
        context_state_or(absent, |_| -> pa_context_state_t { panic!("called") }),
        pa_context_state_t::Unconnected
    );
    assert_eq!(
        encoding_or(absent, |_| -> pa_encoding_t { panic!("called") }),
        pa_encoding_t::Invalid
    );
    assert_eq!(
        prop_type_or(absent, |_| -> pa_prop_type_t { panic!("called") }),
        pa_prop_type_t::Invalid
    );
    unit_or(absent, |_| panic!("called"));
    assert_eq!(call_or(absent, 77u8, |_| -> u8 { panic!("called") }), 77);
}

#[test]
fn with_a_table_the_native_answer_comes_back_unchanged() {
    let table = Some("table");
    assert_eq!(pointer_or(table, |t| t.len() + 0x7000), 0x7005);
    assert_eq!(status_or(table, |_| 0), 0);
    assert_eq!(status_or(table, |_| -1), -1);
    assert_eq!(status_or(table, |_| -17), -17);
    assert_eq!(flag_or(table, |_| 1), 1);
    assert_eq!(count_or(table, |_| 35), 35);
    assert_eq!(size_or(table, |_| 4096), 4096);
    assert_eq!(usec_or(table, |_| 20_000), 20_000);
    assert_eq!(volume_or(table, |_| 0x10000), 0x10000);
    assert_eq!(context_state_or(table, |_| pa_context_state_t::Ready), pa_context_state_t::Ready);
    assert_eq!(encoding_or(table, |_| pa_encoding_t::PCM), pa_encoding_t::PCM);
    assert_eq!(prop_type_or(table, |_| pa_prop_type_t::IntRange), pa_prop_type_t::IntRange);
    assert_eq!(call_or(table, 77u8, |_| 3u8), 3);
}

#[test]
fn with_a_table_the_call_is_made_exactly_once() {
    let calls = Cell::new(0);
    unit_or(Some(5u32), |table| {
        assert_eq!(table, 5);
        calls.set(calls.get() + 1);
    });
    assert_eq!(calls.get(), 1);
    let answer = status_or(Some(9u32), |table| {
        calls.set(calls.get() + 1);
        table as i32
    });
    assert_eq!(answer, 9);
    assert_eq!(calls.get(), 2);
}

#[test]
fn integer_operations_answer_their_documented_sentinel() {
    let documented = [
        ("pa_context_errno", -1),
        ("pa_context_is_pending", 0),
        ("pa_context_connect", -1),
        ("pa_context_is_local", 0),
        ("pa_context_load_cookie_from_file", -1),
        ("pa_format_info_valid", 0),
        ("pa_format_info_is_pcm", 0),
        ("pa_format_info_is_compatible", 0),
        ("pa_format_info_to_sample_spec", -1),
        ("pa_format_info_get_prop_int", -1),
        ("pa_format_info_get_prop_int_range", -1),
        ("pa_format_info_get_prop_int_array", -1),
        ("pa_format_info_get_prop_string", -1),
        ("pa_format_info_get_prop_string_array", -1),
        ("pa_format_info_get_sample_format", -1),
        ("pa_format_info_get_rate", -1),
        ("pa_format_info_get_channels", -1),
        ("pa_format_info_get_channel_map", -1),
        ("pa_signal_init", -1),
        ("pa_mainloop_prepare", -1),
        ("pa_mainloop_poll", -1),
        ("pa_mainloop_dispatch", -1),
        ("pa_mainloop_get_retval", -1),
        ("pa_mainloop_iterate", -1),
        ("pa_mainloop_run", -1),
        ("pa_threaded_mainloop_start", -1),
        ("pa_threaded_mainloop_get_retval", -1),
        ("pa_threaded_mainloop_in_thread", 0),
        ("pa_timeval_cmp", 0),
        ("pa_msleep", -1),
        ("pa_thread_make_realtime", -1),
        ("pa_cvolume_equal", 0),
        ("pa_cvolume_valid", 0),
        ("pa_cvolume_channels_equal_to", 0),
        ("pa_cvolume_compatible", 0),
        ("pa_cvolume_compatible_with_channel_map", 0),
    ];
    let absent: NoTable = None;
    for (name, sentinel) in documented {
        let answer = integer_or(absent, name, |_| -> i32 { panic!("no native call without a table") });
        assert_eq!(answer, sentinel, "{}", name);
        assert_eq!(is_predicate_operation(name), sentinel == 0, "{}", name);
    }
}

#[test]
fn predicates_are_the_listed_operations_only() {
    assert_eq!(PREDICATES.len(), 12);
    for name in PREDICATES {
        assert!(is_predicate_operation(name));
        assert!(PULSE_SYMBOLS.contains(&name));
    }
    let listed = PULSE_SYMBOLS.iter().filter(|name| is_predicate_operation(name)).count();
    assert_eq!(listed, 12);
    assert!(!is_predicate_operation("pa_context_connect"));
    assert!(!is_predicate_operation("pa_cvolume_equa"));
    assert!(!is_predicate_operation(""));
}

#[test]
fn integer_operations_forward_the_native_answer() {
    assert_eq!(integer_or(Some("table"), "pa_cvolume_equal", |_| 1), 1);
    assert_eq!(integer_or(Some("table"), "pa_context_connect", |_| 0), 0);
    assert_eq!(integer_or(Some("table"), "pa_context_errno", |_| 6), 6);
}
