//! The exported names this binding resolves, spelled exactly as the native
//! libraries export them. Each name has a constant, and the order of a list
//! is the order of the table that is built from it.

use vstd::prelude::*;

verus! {

pub const PA_STREAM_CONNECT_UPLOAD: &'static str = "pa_stream_connect_upload";

pub const PA_STREAM_FINISH_UPLOAD: &'static str = "pa_stream_finish_upload";

pub const PA_STREAM_NEW: &'static str = "pa_stream_new";

pub const PA_STREAM_NEW_WITH_PROPLIST: &'static str = "pa_stream_new_with_proplist";

pub const PA_STREAM_NEW_EXTENDED: &'static str = "pa_stream_new_extended";

pub const PA_STREAM_UNREF: &'static str = "pa_stream_unref";

pub const PA_STREAM_REF: &'static str = "pa_stream_ref";

pub const PA_STREAM_GET_STATE: &'static str = "pa_stream_get_state";

pub const PA_STREAM_GET_CONTEXT: &'static str = "pa_stream_get_context";

pub const PA_STREAM_GET_INDEX: &'static str = "pa_stream_get_index";

pub const PA_STREAM_GET_DEVICE_INDEX: &'static str = "pa_stream_get_device_index";

pub const PA_STREAM_GET_DEVICE_NAME: &'static str = "pa_stream_get_device_name";

pub const PA_STREAM_IS_SUSPENDED: &'static str = "pa_stream_is_suspended";

pub const PA_STREAM_IS_CORKED: &'static str = "pa_stream_is_corked";

pub const PA_STREAM_CONNECT_PLAYBACK: &'static str = "pa_stream_connect_playback";

pub const PA_STREAM_CONNECT_RECORD: &'static str = "pa_stream_connect_record";

pub const PA_STREAM_DISCONNECT: &'static str = "pa_stream_disconnect";

pub const PA_STREAM_BEGIN_WRITE: &'static str = "pa_stream_begin_write";

pub const PA_STREAM_CANCEL_WRITE: &'static str = "pa_stream_cancel_write";

pub const PA_STREAM_WRITE: &'static str = "pa_stream_write";

pub const PA_STREAM_WRITE_EXT_FREE: &'static str = "pa_stream_write_ext_free";

pub const PA_STREAM_PEEK: &'static str = "pa_stream_peek";

pub const PA_STREAM_DROP: &'static str = "pa_stream_drop";

pub const PA_STREAM_WRITABLE_SIZE: &'static str = "pa_stream_writable_size";

pub const PA_STREAM_READABLE_SIZE: &'static str = "pa_stream_readable_size";

pub const PA_STREAM_DRAIN: &'static str = "pa_stream_drain";

pub const PA_STREAM_UPDATE_TIMING_INFO: &'static str = "pa_stream_update_timing_info";

pub const PA_STREAM_SET_STATE_CALLBACK: &'static str = "pa_stream_set_state_callback";

pub const PA_STREAM_SET_WRITE_CALLBACK: &'static str = "pa_stream_set_write_callback";

pub const PA_STREAM_SET_READ_CALLBACK: &'static str = "pa_stream_set_read_callback";

pub const PA_STREAM_SET_OVERFLOW_CALLBACK: &'static str = "pa_stream_set_overflow_callback";

pub const PA_STREAM_GET_UNDERFLOW_INDEX: &'static str = "pa_stream_get_underflow_index";

pub const PA_STREAM_SET_UNDERFLOW_CALLBACK: &'static str = "pa_stream_set_underflow_callback";

pub const PA_STREAM_SET_STARTED_CALLBACK: &'static str = "pa_stream_set_started_callback";

pub const PA_STREAM_SET_LATENCY_UPDATE_CALLBACK: &'static str = "pa_stream_set_latency_update_callback";

pub const PA_STREAM_SET_MOVED_CALLBACK: &'static str = "pa_stream_set_moved_callback";

pub const PA_STREAM_SET_SUSPENDED_CALLBACK: &'static str = "pa_stream_set_suspended_callback";

pub const PA_STREAM_SET_EVENT_CALLBACK: &'static str = "pa_stream_set_event_callback";

pub const PA_STREAM_SET_BUFFER_ATTR_CALLBACK: &'static str = "pa_stream_set_buffer_attr_callback";

pub const PA_STREAM_CORK: &'static str = "pa_stream_cork";

pub const PA_STREAM_FLUSH: &'static str = "pa_stream_flush";

pub const PA_STREAM_PREBUF: &'static str = "pa_stream_prebuf";

pub const PA_STREAM_TRIGGER: &'static str = "pa_stream_trigger";

pub const PA_STREAM_SET_NAME: &'static str = "pa_stream_set_name";

pub const PA_STREAM_GET_TIME: &'static str = "pa_stream_get_time";

pub const PA_STREAM_GET_LATENCY: &'static str = "pa_stream_get_latency";

pub const PA_STREAM_GET_TIMING_INFO: &'static str = "pa_stream_get_timing_info";

pub const PA_STREAM_GET_SAMPLE_SPEC: &'static str = "pa_stream_get_sample_spec";

pub const PA_STREAM_GET_CHANNEL_MAP: &'static str = "pa_stream_get_channel_map";

pub const PA_STREAM_GET_FORMAT_INFO: &'static str = "pa_stream_get_format_info";

pub const PA_STREAM_GET_BUFFER_ATTR: &'static str = "pa_stream_get_buffer_attr";

pub const PA_STREAM_SET_BUFFER_ATTR: &'static str = "pa_stream_set_buffer_attr";

pub const PA_STREAM_UPDATE_SAMPLE_RATE: &'static str = "pa_stream_update_sample_rate";

pub const PA_STREAM_PROPLIST_UPDATE: &'static str = "pa_stream_proplist_update";

pub const PA_STREAM_PROPLIST_REMOVE: &'static str = "pa_stream_proplist_remove";

pub const PA_STREAM_SET_MONITOR_STREAM: &'static str = "pa_stream_set_monitor_stream";

pub const PA_STREAM_GET_MONITOR_STREAM: &'static str = "pa_stream_get_monitor_stream";

pub const PA_GETTIMEOFDAY: &'static str = "pa_gettimeofday";

pub const PA_TIMEVAL_DIFF: &'static str = "pa_timeval_diff";

pub const PA_TIMEVAL_CMP: &'static str = "pa_timeval_cmp";

pub const PA_TIMEVAL_AGE: &'static str = "pa_timeval_age";

pub const PA_TIMEVAL_ADD: &'static str = "pa_timeval_add";

pub const PA_TIMEVAL_SUB: &'static str = "pa_timeval_sub";

pub const PA_TIMEVAL_STORE: &'static str = "pa_timeval_store";

pub const PA_TIMEVAL_LOAD: &'static str = "pa_timeval_load";

pub const PA_UTF8_VALID: &'static str = "pa_utf8_valid";

pub const PA_ASCII_VALID: &'static str = "pa_ascii_valid";

pub const PA_UTF8_FILTER: &'static str = "pa_utf8_filter";

pub const PA_ASCII_FILTER: &'static str = "pa_ascii_filter";

pub const PA_UTF8_TO_LOCALE: &'static str = "pa_utf8_to_locale";

pub const PA_LOCALE_TO_UTF8: &'static str = "pa_locale_to_utf8";

pub const PA_GET_USER_NAME: &'static str = "pa_get_user_name";

pub const PA_GET_HOST_NAME: &'static str = "pa_get_host_name";

pub const PA_GET_FQDN: &'static str = "pa_get_fqdn";

pub const PA_GET_HOME_DIR: &'static str = "pa_get_home_dir";

pub const PA_GET_BINARY_NAME: &'static str = "pa_get_binary_name";

pub const PA_PATH_GET_FILENAME: &'static str = "pa_path_get_filename";

pub const PA_MSLEEP: &'static str = "pa_msleep";

pub const PA_THREAD_MAKE_REALTIME: &'static str = "pa_thread_make_realtime";

pub const PA_GET_LIBRARY_VERSION: &'static str = "pa_get_library_version";

pub const PA_CVOLUME_EQUAL: &'static str = "pa_cvolume_equal";

pub const PA_CVOLUME_INIT: &'static str = "pa_cvolume_init";

pub const PA_CVOLUME_SET: &'static str = "pa_cvolume_set";

pub const PA_CVOLUME_SNPRINT: &'static str = "pa_cvolume_snprint";

pub const PA_SW_CVOLUME_SNPRINT_DB: &'static str = "pa_sw_cvolume_snprint_dB";

pub const PA_CVOLUME_SNPRINT_VERBOSE: &'static str = "pa_cvolume_snprint_verbose";

pub const PA_VOLUME_SNPRINT: &'static str = "pa_volume_snprint";

pub const PA_SW_VOLUME_SNPRINT_DB: &'static str = "pa_sw_volume_snprint_dB";

pub const PA_VOLUME_SNPRINT_VERBOSE: &'static str = "pa_volume_snprint_verbose";

pub const PA_CVOLUME_AVG: &'static str = "pa_cvolume_avg";

pub const PA_CVOLUME_AVG_MASK: &'static str = "pa_cvolume_avg_mask";

pub const PA_CVOLUME_MAX: &'static str = "pa_cvolume_max";

pub const PA_CVOLUME_MAX_MASK: &'static str = "pa_cvolume_max_mask";

pub const PA_CVOLUME_MIN: &'static str = "pa_cvolume_min";

pub const PA_CVOLUME_MIN_MASK: &'static str = "pa_cvolume_min_mask";

pub const PA_CVOLUME_VALID: &'static str = "pa_cvolume_valid";

pub const PA_CVOLUME_CHANNELS_EQUAL_TO: &'static str = "pa_cvolume_channels_equal_to";

pub const PA_SW_VOLUME_MULTIPLY: &'static str = "pa_sw_volume_multiply";

pub const PA_SW_CVOLUME_MULTIPLY: &'static str = "pa_sw_cvolume_multiply";

pub const PA_SW_CVOLUME_MULTIPLY_SCALAR: &'static str = "pa_sw_cvolume_multiply_scalar";

pub const PA_SW_VOLUME_DIVIDE: &'static str = "pa_sw_volume_divide";

pub const PA_SW_CVOLUME_DIVIDE: &'static str = "pa_sw_cvolume_divide";

pub const PA_SW_CVOLUME_DIVIDE_SCALAR: &'static str = "pa_sw_cvolume_divide_scalar";

pub const PA_SW_VOLUME_FROM_DB: &'static str = "pa_sw_volume_from_dB";

pub const PA_SW_VOLUME_TO_DB: &'static str = "pa_sw_volume_to_dB";

pub const PA_SW_VOLUME_FROM_LINEAR: &'static str = "pa_sw_volume_from_linear";

pub const PA_SW_VOLUME_TO_LINEAR: &'static str = "pa_sw_volume_to_linear";

pub const PA_CVOLUME_REMAP: &'static str = "pa_cvolume_remap";

pub const PA_CVOLUME_COMPATIBLE: &'static str = "pa_cvolume_compatible";

pub const PA_CVOLUME_COMPATIBLE_WITH_CHANNEL_MAP: &'static str = "pa_cvolume_compatible_with_channel_map";

pub const PA_CVOLUME_GET_BALANCE: &'static str = "pa_cvolume_get_balance";

pub const PA_CVOLUME_SET_BALANCE: &'static str = "pa_cvolume_set_balance";

pub const PA_CVOLUME_GET_FADE: &'static str = "pa_cvolume_get_fade";

pub const PA_CVOLUME_SET_FADE: &'static str = "pa_cvolume_set_fade";

pub const PA_CVOLUME_GET_LFE_BALANCE: &'static str = "pa_cvolume_get_lfe_balance";

pub const PA_CVOLUME_SET_LFE_BALANCE: &'static str = "pa_cvolume_set_lfe_balance";

pub const PA_CVOLUME_SCALE: &'static str = "pa_cvolume_scale";

pub const PA_CVOLUME_SCALE_MASK: &'static str = "pa_cvolume_scale_mask";

pub const PA_CVOLUME_SET_POSITION: &'static str = "pa_cvolume_set_position";

pub const PA_CVOLUME_GET_POSITION: &'static str = "pa_cvolume_get_position";

pub const PA_CVOLUME_MERGE: &'static str = "pa_cvolume_merge";

pub const PA_CVOLUME_INC_CLAMP: &'static str = "pa_cvolume_inc_clamp";

pub const PA_CVOLUME_INC: &'static str = "pa_cvolume_inc";

pub const PA_CVOLUME_DEC: &'static str = "pa_cvolume_dec";

pub const PA_XMALLOC: &'static str = "pa_xmalloc";

pub const PA_XMALLOC0: &'static str = "pa_xmalloc0";

pub const PA_XREALLOC: &'static str = "pa_xrealloc";

pub const PA_XFREE: &'static str = "pa_xfree";

pub const PA_XSTRDUP: &'static str = "pa_xstrdup";

pub const PA_XSTRNDUP: &'static str = "pa_xstrndup";

pub const PA_XMEMDUP: &'static str = "pa_xmemdup";

pub const PA_BYTES_PER_SECOND: &'static str = "pa_bytes_per_second";

pub const PA_FRAME_SIZE: &'static str = "pa_frame_size";

pub const PA_SAMPLE_SIZE: &'static str = "pa_sample_size";

pub const PA_SAMPLE_SIZE_OF_FORMAT: &'static str = "pa_sample_size_of_format";

pub const PA_BYTES_TO_USEC: &'static str = "pa_bytes_to_usec";

pub const PA_USEC_TO_BYTES: &'static str = "pa_usec_to_bytes";

pub const PA_SAMPLE_SPEC_INIT: &'static str = "pa_sample_spec_init";

pub const PA_SAMPLE_FORMAT_VALID: &'static str = "pa_sample_format_valid";

pub const PA_SAMPLE_RATE_VALID: &'static str = "pa_sample_rate_valid";

pub const PA_CHANNELS_VALID: &'static str = "pa_channels_valid";

pub const PA_SAMPLE_SPEC_VALID: &'static str = "pa_sample_spec_valid";

pub const PA_SAMPLE_SPEC_EQUAL: &'static str = "pa_sample_spec_equal";

pub const PA_SAMPLE_FORMAT_TO_STRING: &'static str = "pa_sample_format_to_string";

pub const PA_PARSE_SAMPLE_FORMAT: &'static str = "pa_parse_sample_format";

pub const PA_SAMPLE_SPEC_SNPRINT: &'static str = "pa_sample_spec_snprint";

pub const PA_BYTES_SNPRINT: &'static str = "pa_bytes_snprint";

pub const PA_SAMPLE_FORMAT_IS_LE: &'static str = "pa_sample_format_is_le";

pub const PA_SAMPLE_FORMAT_IS_BE: &'static str = "pa_sample_format_is_be";

pub const PA_RTCLOCK_NOW: &'static str = "pa_rtclock_now";

pub const PA_PROPLIST_NEW: &'static str = "pa_proplist_new";

pub const PA_PROPLIST_FREE: &'static str = "pa_proplist_free";

pub const PA_PROPLIST_KEY_VALID: &'static str = "pa_proplist_key_valid";

pub const PA_PROPLIST_SETS: &'static str = "pa_proplist_sets";

pub const PA_PROPLIST_SETP: &'static str = "pa_proplist_setp";

pub const PA_PROPLIST_SETF: &'static str = "pa_proplist_setf";

pub const PA_PROPLIST_SET: &'static str = "pa_proplist_set";

pub const PA_PROPLIST_GETS: &'static str = "pa_proplist_gets";

pub const PA_PROPLIST_GET: &'static str = "pa_proplist_get";

pub const PA_PROPLIST_UPDATE: &'static str = "pa_proplist_update";

pub const PA_PROPLIST_UNSET: &'static str = "pa_proplist_unset";

pub const PA_PROPLIST_UNSET_MANY: &'static str = "pa_proplist_unset_many";

pub const PA_PROPLIST_ITERATE: &'static str = "pa_proplist_iterate";

pub const PA_PROPLIST_TO_STRING: &'static str = "pa_proplist_to_string";

pub const PA_PROPLIST_TO_STRING_SEP: &'static str = "pa_proplist_to_string_sep";

pub const PA_PROPLIST_FROM_STRING: &'static str = "pa_proplist_from_string";

pub const PA_PROPLIST_CONTAINS: &'static str = "pa_proplist_contains";

pub const PA_PROPLIST_CLEAR: &'static str = "pa_proplist_clear";

pub const PA_PROPLIST_COPY: &'static str = "pa_proplist_copy";

pub const PA_PROPLIST_SIZE: &'static str = "pa_proplist_size";

pub const PA_PROPLIST_ISEMPTY: &'static str = "pa_proplist_isempty";

pub const PA_PROPLIST_EQUAL: &'static str = "pa_proplist_equal";

pub const PA_ENCODING_TO_STRING: &'static str = "pa_encoding_to_string";

pub const PA_ENCODING_FROM_STRING: &'static str = "pa_encoding_from_string";

pub const PA_FORMAT_INFO_NEW: &'static str = "pa_format_info_new";

pub const PA_FORMAT_INFO_COPY: &'static str = "pa_format_info_copy";

pub const PA_FORMAT_INFO_FREE: &'static str = "pa_format_info_free";

pub const PA_FORMAT_INFO_VALID: &'static str = "pa_format_info_valid";

pub const PA_FORMAT_INFO_IS_PCM: &'static str = "pa_format_info_is_pcm";

pub const PA_FORMAT_INFO_IS_COMPATIBLE: &'static str = "pa_format_info_is_compatible";

pub const PA_FORMAT_INFO_SNPRINT: &'static str = "pa_format_info_snprint";

pub const PA_FORMAT_INFO_FROM_STRING: &'static str = "pa_format_info_from_string";

pub const PA_FORMAT_INFO_FROM_SAMPLE_SPEC: &'static str = "pa_format_info_from_sample_spec";

pub const PA_FORMAT_INFO_TO_SAMPLE_SPEC: &'static str = "pa_format_info_to_sample_spec";

pub const PA_FORMAT_INFO_GET_PROP_TYPE: &'static str = "pa_format_info_get_prop_type";

pub const PA_FORMAT_INFO_GET_PROP_INT: &'static str = "pa_format_info_get_prop_int";

pub const PA_FORMAT_INFO_GET_PROP_INT_RANGE: &'static str = "pa_format_info_get_prop_int_range";

pub const PA_FORMAT_INFO_GET_PROP_INT_ARRAY: &'static str = "pa_format_info_get_prop_int_array";

pub const PA_FORMAT_INFO_GET_PROP_STRING: &'static str = "pa_format_info_get_prop_string";

pub const PA_FORMAT_INFO_GET_PROP_STRING_ARRAY: &'static str = "pa_format_info_get_prop_string_array";

pub const PA_FORMAT_INFO_FREE_STRING_ARRAY: &'static str = "pa_format_info_free_string_array";

pub const PA_FORMAT_INFO_GET_SAMPLE_FORMAT: &'static str = "pa_format_info_get_sample_format";

pub const PA_FORMAT_INFO_GET_RATE: &'static str = "pa_format_info_get_rate";

pub const PA_FORMAT_INFO_GET_CHANNELS: &'static str = "pa_format_info_get_channels";

pub const PA_FORMAT_INFO_GET_CHANNEL_MAP: &'static str = "pa_format_info_get_channel_map";

pub const PA_FORMAT_INFO_SET_PROP_INT: &'static str = "pa_format_info_set_prop_int";

pub const PA_FORMAT_INFO_SET_PROP_INT_ARRAY: &'static str = "pa_format_info_set_prop_int_array";

pub const PA_FORMAT_INFO_SET_PROP_INT_RANGE: &'static str = "pa_format_info_set_prop_int_range";

pub const PA_FORMAT_INFO_SET_PROP_STRING: &'static str = "pa_format_info_set_prop_string";

pub const PA_FORMAT_INFO_SET_PROP_STRING_ARRAY: &'static str = "pa_format_info_set_prop_string_array";

pub const PA_FORMAT_INFO_SET_SAMPLE_FORMAT: &'static str = "pa_format_info_set_sample_format";

pub const PA_FORMAT_INFO_SET_RATE: &'static str = "pa_format_info_set_rate";

pub const PA_FORMAT_INFO_SET_CHANNELS: &'static str = "pa_format_info_set_channels";

pub const PA_FORMAT_INFO_SET_CHANNEL_MAP: &'static str = "pa_format_info_set_channel_map";

pub const PA_STRERROR: &'static str = "pa_strerror";

pub const PA_DIRECTION_VALID: &'static str = "pa_direction_valid";

pub const PA_DIRECTION_TO_STRING: &'static str = "pa_direction_to_string";

pub const PA_CHANNEL_MAP_INIT: &'static str = "pa_channel_map_init";

pub const PA_CHANNEL_MAP_INIT_MONO: &'static str = "pa_channel_map_init_mono";

pub const PA_CHANNEL_MAP_INIT_STEREO: &'static str = "pa_channel_map_init_stereo";

pub const PA_CHANNEL_MAP_INIT_AUTO: &'static str = "pa_channel_map_init_auto";

pub const PA_CHANNEL_MAP_INIT_EXTEND: &'static str = "pa_channel_map_init_extend";

pub const PA_CHANNEL_POSITION_TO_STRING: &'static str = "pa_channel_position_to_string";

pub const PA_CHANNEL_POSITION_FROM_STRING: &'static str = "pa_channel_position_from_string";

pub const PA_CHANNEL_POSITION_TO_PRETTY_STRING: &'static str = "pa_channel_position_to_pretty_string";

pub const PA_CHANNEL_MAP_SNPRINT: &'static str = "pa_channel_map_snprint";

pub const PA_CHANNEL_MAP_PARSE: &'static str = "pa_channel_map_parse";

pub const PA_CHANNEL_MAP_EQUAL: &'static str = "pa_channel_map_equal";

pub const PA_CHANNEL_MAP_VALID: &'static str = "pa_channel_map_valid";

pub const PA_CHANNEL_MAP_COMPATIBLE: &'static str = "pa_channel_map_compatible";

pub const PA_CHANNEL_MAP_SUPERSET: &'static str = "pa_channel_map_superset";

pub const PA_CHANNEL_MAP_CAN_BALANCE: &'static str = "pa_channel_map_can_balance";

pub const PA_CHANNEL_MAP_CAN_FADE: &'static str = "pa_channel_map_can_fade";

pub const PA_CHANNEL_MAP_CAN_LFE_BALANCE: &'static str = "pa_channel_map_can_lfe_balance";

pub const PA_CHANNEL_MAP_TO_NAME: &'static str = "pa_channel_map_to_name";

pub const PA_CHANNEL_MAP_TO_PRETTY_NAME: &'static str = "pa_channel_map_to_pretty_name";

pub const PA_CHANNEL_MAP_HAS_POSITION: &'static str = "pa_channel_map_has_position";

pub const PA_CHANNEL_MAP_MASK: &'static str = "pa_channel_map_mask";

pub const PA_THREADED_MAINLOOP_NEW: &'static str = "pa_threaded_mainloop_new";

pub const PA_THREADED_MAINLOOP_FREE: &'static str = "pa_threaded_mainloop_free";

pub const PA_THREADED_MAINLOOP_START: &'static str = "pa_threaded_mainloop_start";

pub const PA_THREADED_MAINLOOP_STOP: &'static str = "pa_threaded_mainloop_stop";

pub const PA_THREADED_MAINLOOP_LOCK: &'static str = "pa_threaded_mainloop_lock";

pub const PA_THREADED_MAINLOOP_UNLOCK: &'static str = "pa_threaded_mainloop_unlock";

pub const PA_THREADED_MAINLOOP_WAIT: &'static str = "pa_threaded_mainloop_wait";

pub const PA_THREADED_MAINLOOP_SIGNAL: &'static str = "pa_threaded_mainloop_signal";

pub const PA_THREADED_MAINLOOP_ACCEPT: &'static str = "pa_threaded_mainloop_accept";

pub const PA_THREADED_MAINLOOP_GET_RETVAL: &'static str = "pa_threaded_mainloop_get_retval";

pub const PA_THREADED_MAINLOOP_GET_API: &'static str = "pa_threaded_mainloop_get_api";

pub const PA_THREADED_MAINLOOP_IN_THREAD: &'static str = "pa_threaded_mainloop_in_thread";

pub const PA_THREADED_MAINLOOP_SET_NAME: &'static str = "pa_threaded_mainloop_set_name";

pub const PA_THREADED_MAINLOOP_ONCE_UNLOCKED: &'static str = "pa_threaded_mainloop_once_unlocked";

pub const PA_MAINLOOP_NEW: &'static str = "pa_mainloop_new";

pub const PA_MAINLOOP_FREE: &'static str = "pa_mainloop_free";

pub const PA_MAINLOOP_PREPARE: &'static str = "pa_mainloop_prepare";

pub const PA_MAINLOOP_POLL: &'static str = "pa_mainloop_poll";

pub const PA_MAINLOOP_DISPATCH: &'static str = "pa_mainloop_dispatch";

pub const PA_MAINLOOP_GET_RETVAL: &'static str = "pa_mainloop_get_retval";

pub const PA_MAINLOOP_ITERATE: &'static str = "pa_mainloop_iterate";

pub const PA_MAINLOOP_RUN: &'static str = "pa_mainloop_run";

pub const PA_MAINLOOP_GET_API: &'static str = "pa_mainloop_get_api";

pub const PA_MAINLOOP_QUIT: &'static str = "pa_mainloop_quit";

pub const PA_MAINLOOP_WAKEUP: &'static str = "pa_mainloop_wakeup";

pub const PA_MAINLOOP_SET_POLL_FUNC: &'static str = "pa_mainloop_set_poll_func";

pub const PA_SIGNAL_INIT: &'static str = "pa_signal_init";

pub const PA_SIGNAL_DONE: &'static str = "pa_signal_done";

pub const PA_SIGNAL_NEW: &'static str = "pa_signal_new";

pub const PA_SIGNAL_FREE: &'static str = "pa_signal_free";

pub const PA_SIGNAL_SET_DESTROY: &'static str = "pa_signal_set_destroy";

pub const PA_MAINLOOP_API_ONCE: &'static str = "pa_mainloop_api_once";

pub const PA_CONTEXT_SUBSCRIBE: &'static str = "pa_context_subscribe";

pub const PA_CONTEXT_SET_SUBSCRIBE_CALLBACK: &'static str = "pa_context_set_subscribe_callback";

pub const PA_CONTEXT_REMOVE_SAMPLE: &'static str = "pa_context_remove_sample";

pub const PA_CONTEXT_PLAY_SAMPLE: &'static str = "pa_context_play_sample";

pub const PA_CONTEXT_PLAY_SAMPLE_WITH_PROPLIST: &'static str = "pa_context_play_sample_with_proplist";

pub const PA_CONTEXT_NEW: &'static str = "pa_context_new";

pub const PA_CONTEXT_NEW_WITH_PROPLIST: &'static str = "pa_context_new_with_proplist";

pub const PA_CONTEXT_UNREF: &'static str = "pa_context_unref";

pub const PA_CONTEXT_REF: &'static str = "pa_context_ref";

pub const PA_CONTEXT_SET_STATE_CALLBACK: &'static str = "pa_context_set_state_callback";

pub const PA_CONTEXT_SET_EVENT_CALLBACK: &'static str = "pa_context_set_event_callback";

pub const PA_CONTEXT_ERRNO: &'static str = "pa_context_errno";

pub const PA_CONTEXT_IS_PENDING: &'static str = "pa_context_is_pending";

pub const PA_CONTEXT_GET_STATE: &'static str = "pa_context_get_state";

pub const PA_CONTEXT_CONNECT: &'static str = "pa_context_connect";

pub const PA_CONTEXT_DISCONNECT: &'static str = "pa_context_disconnect";

pub const PA_CONTEXT_DRAIN: &'static str = "pa_context_drain";

pub const PA_CONTEXT_EXIT_DAEMON: &'static str = "pa_context_exit_daemon";

pub const PA_CONTEXT_SET_DEFAULT_SINK: &'static str = "pa_context_set_default_sink";

pub const PA_CONTEXT_SET_DEFAULT_SOURCE: &'static str = "pa_context_set_default_source";

pub const PA_CONTEXT_IS_LOCAL: &'static str = "pa_context_is_local";

pub const PA_CONTEXT_SET_NAME: &'static str = "pa_context_set_name";

pub const PA_CONTEXT_GET_SERVER: &'static str = "pa_context_get_server";

pub const PA_CONTEXT_GET_PROTOCOL_VERSION: &'static str = "pa_context_get_protocol_version";

pub const PA_CONTEXT_GET_SERVER_PROTOCOL_VERSION: &'static str = "pa_context_get_server_protocol_version";

pub const PA_CONTEXT_PROPLIST_UPDATE: &'static str = "pa_context_proplist_update";

pub const PA_CONTEXT_PROPLIST_REMOVE: &'static str = "pa_context_proplist_remove";

pub const PA_CONTEXT_GET_INDEX: &'static str = "pa_context_get_index";

pub const PA_CONTEXT_RTTIME_NEW: &'static str = "pa_context_rttime_new";

pub const PA_CONTEXT_RTTIME_RESTART: &'static str = "pa_context_rttime_restart";

pub const PA_CONTEXT_GET_TILE_SIZE: &'static str = "pa_context_get_tile_size";

pub const PA_CONTEXT_LOAD_COOKIE_FROM_FILE: &'static str = "pa_context_load_cookie_from_file";

pub const PA_CONTEXT_GET_SINK_INFO_BY_NAME: &'static str = "pa_context_get_sink_info_by_name";

pub const PA_CONTEXT_GET_SINK_INFO_BY_INDEX: &'static str = "pa_context_get_sink_info_by_index";

pub const PA_CONTEXT_GET_SINK_INFO_LIST: &'static str = "pa_context_get_sink_info_list";

pub const PA_CONTEXT_SET_SINK_VOLUME_BY_INDEX: &'static str = "pa_context_set_sink_volume_by_index";

pub const PA_CONTEXT_SET_SINK_VOLUME_BY_NAME: &'static str = "pa_context_set_sink_volume_by_name";

pub const PA_CONTEXT_SET_SINK_MUTE_BY_INDEX: &'static str = "pa_context_set_sink_mute_by_index";

pub const PA_CONTEXT_SET_SINK_MUTE_BY_NAME: &'static str = "pa_context_set_sink_mute_by_name";

pub const PA_CONTEXT_SUSPEND_SINK_BY_NAME: &'static str = "pa_context_suspend_sink_by_name";

pub const PA_CONTEXT_SUSPEND_SINK_BY_INDEX: &'static str = "pa_context_suspend_sink_by_index";

pub const PA_CONTEXT_SET_SINK_PORT_BY_INDEX: &'static str = "pa_context_set_sink_port_by_index";

pub const PA_CONTEXT_SET_SINK_PORT_BY_NAME: &'static str = "pa_context_set_sink_port_by_name";

pub const PA_CONTEXT_GET_SOURCE_INFO_BY_NAME: &'static str = "pa_context_get_source_info_by_name";

pub const PA_CONTEXT_GET_SOURCE_INFO_BY_INDEX: &'static str = "pa_context_get_source_info_by_index";

pub const PA_CONTEXT_GET_SOURCE_INFO_LIST: &'static str = "pa_context_get_source_info_list";

pub const PA_CONTEXT_SET_SOURCE_VOLUME_BY_INDEX: &'static str = "pa_context_set_source_volume_by_index";

pub const PA_CONTEXT_SET_SOURCE_VOLUME_BY_NAME: &'static str = "pa_context_set_source_volume_by_name";

pub const PA_CONTEXT_SET_SOURCE_MUTE_BY_INDEX: &'static str = "pa_context_set_source_mute_by_index";

pub const PA_CONTEXT_SET_SOURCE_MUTE_BY_NAME: &'static str = "pa_context_set_source_mute_by_name";

pub const PA_CONTEXT_SUSPEND_SOURCE_BY_NAME: &'static str = "pa_context_suspend_source_by_name";

pub const PA_CONTEXT_SUSPEND_SOURCE_BY_INDEX: &'static str = "pa_context_suspend_source_by_index";

pub const PA_CONTEXT_SET_SOURCE_PORT_BY_INDEX: &'static str = "pa_context_set_source_port_by_index";

pub const PA_CONTEXT_SET_SOURCE_PORT_BY_NAME: &'static str = "pa_context_set_source_port_by_name";

pub const PA_CONTEXT_GET_SERVER_INFO: &'static str = "pa_context_get_server_info";

pub const PA_CONTEXT_GET_MODULE_INFO: &'static str = "pa_context_get_module_info";

pub const PA_CONTEXT_GET_MODULE_INFO_LIST: &'static str = "pa_context_get_module_info_list";

pub const PA_CONTEXT_LOAD_MODULE: &'static str = "pa_context_load_module";

pub const PA_CONTEXT_UNLOAD_MODULE: &'static str = "pa_context_unload_module";

pub const PA_CONTEXT_SEND_MESSAGE_TO_OBJECT: &'static str = "pa_context_send_message_to_object";

pub const PA_CONTEXT_GET_CLIENT_INFO: &'static str = "pa_context_get_client_info";

pub const PA_CONTEXT_GET_CLIENT_INFO_LIST: &'static str = "pa_context_get_client_info_list";

pub const PA_CONTEXT_KILL_CLIENT: &'static str = "pa_context_kill_client";

pub const PA_CONTEXT_GET_CARD_INFO_BY_INDEX: &'static str = "pa_context_get_card_info_by_index";

pub const PA_CONTEXT_GET_CARD_INFO_BY_NAME: &'static str = "pa_context_get_card_info_by_name";

pub const PA_CONTEXT_GET_CARD_INFO_LIST: &'static str = "pa_context_get_card_info_list";

pub const PA_CONTEXT_SET_CARD_PROFILE_BY_INDEX: &'static str = "pa_context_set_card_profile_by_index";

pub const PA_CONTEXT_SET_CARD_PROFILE_BY_NAME: &'static str = "pa_context_set_card_profile_by_name";

pub const PA_CONTEXT_SET_PORT_LATENCY_OFFSET: &'static str = "pa_context_set_port_latency_offset";

pub const PA_CONTEXT_GET_SINK_INPUT_INFO: &'static str = "pa_context_get_sink_input_info";

pub const PA_CONTEXT_GET_SINK_INPUT_INFO_LIST: &'static str = "pa_context_get_sink_input_info_list";

pub const PA_CONTEXT_MOVE_SINK_INPUT_BY_NAME: &'static str = "pa_context_move_sink_input_by_name";

pub const PA_CONTEXT_MOVE_SINK_INPUT_BY_INDEX: &'static str = "pa_context_move_sink_input_by_index";

pub const PA_CONTEXT_SET_SINK_INPUT_VOLUME: &'static str = "pa_context_set_sink_input_volume";

pub const PA_CONTEXT_SET_SINK_INPUT_MUTE: &'static str = "pa_context_set_sink_input_mute";

pub const PA_CONTEXT_KILL_SINK_INPUT: &'static str = "pa_context_kill_sink_input";

pub const PA_CONTEXT_GET_SOURCE_OUTPUT_INFO: &'static str = "pa_context_get_source_output_info";

pub const PA_CONTEXT_GET_SOURCE_OUTPUT_INFO_LIST: &'static str = "pa_context_get_source_output_info_list";

pub const PA_CONTEXT_MOVE_SOURCE_OUTPUT_BY_NAME: &'static str = "pa_context_move_source_output_by_name";

pub const PA_CONTEXT_MOVE_SOURCE_OUTPUT_BY_INDEX: &'static str = "pa_context_move_source_output_by_index";

pub const PA_CONTEXT_SET_SOURCE_OUTPUT_VOLUME: &'static str = "pa_context_set_source_output_volume";

pub const PA_CONTEXT_SET_SOURCE_OUTPUT_MUTE: &'static str = "pa_context_set_source_output_mute";

pub const PA_CONTEXT_KILL_SOURCE_OUTPUT: &'static str = "pa_context_kill_source_output";

pub const PA_CONTEXT_STAT: &'static str = "pa_context_stat";

pub const PA_CONTEXT_GET_SAMPLE_INFO_BY_NAME: &'static str = "pa_context_get_sample_info_by_name";

pub const PA_CONTEXT_GET_SAMPLE_INFO_BY_INDEX: &'static str = "pa_context_get_sample_info_by_index";

pub const PA_CONTEXT_GET_SAMPLE_INFO_LIST: &'static str = "pa_context_get_sample_info_list";

pub const PA_EXT_STREAM_RESTORE_TEST: &'static str = "pa_ext_stream_restore_test";

pub const PA_EXT_STREAM_RESTORE_READ: &'static str = "pa_ext_stream_restore_read";

pub const PA_EXT_STREAM_RESTORE_WRITE: &'static str = "pa_ext_stream_restore_write";

pub const PA_EXT_STREAM_RESTORE_DELETE: &'static str = "pa_ext_stream_restore_delete";

pub const PA_EXT_STREAM_RESTORE_SUBSCRIBE: &'static str = "pa_ext_stream_restore_subscribe";

pub const PA_EXT_STREAM_RESTORE_SET_SUBSCRIBE_CB: &'static str = "pa_ext_stream_restore_set_subscribe_cb";

pub const PA_EXT_DEVICE_RESTORE_TEST: &'static str = "pa_ext_device_restore_test";

pub const PA_EXT_DEVICE_RESTORE_SUBSCRIBE: &'static str = "pa_ext_device_restore_subscribe";

pub const PA_EXT_DEVICE_RESTORE_SET_SUBSCRIBE_CB: &'static str = "pa_ext_device_restore_set_subscribe_cb";

pub const PA_EXT_DEVICE_RESTORE_READ_FORMATS_ALL: &'static str = "pa_ext_device_restore_read_formats_all";

pub const PA_EXT_DEVICE_RESTORE_READ_FORMATS: &'static str = "pa_ext_device_restore_read_formats";

pub const PA_EXT_DEVICE_RESTORE_SAVE_FORMATS: &'static str = "pa_ext_device_restore_save_formats";

pub const PA_EXT_DEVICE_MANAGER_TEST: &'static str = "pa_ext_device_manager_test";

pub const PA_EXT_DEVICE_MANAGER_READ: &'static str = "pa_ext_device_manager_read";

pub const PA_EXT_DEVICE_MANAGER_SET_DEVICE_DESCRIPTION: &'static str = "pa_ext_device_manager_set_device_description";

pub const PA_EXT_DEVICE_MANAGER_DELETE: &'static str = "pa_ext_device_manager_delete";

pub const PA_EXT_DEVICE_MANAGER_ENABLE_ROLE_DEVICE_PRIORITY_ROUTING: &'static str = "pa_ext_device_manager_enable_role_device_priority_routing";

pub const PA_EXT_DEVICE_MANAGER_REORDER_DEVICES_FOR_ROLE: &'static str = "pa_ext_device_manager_reorder_devices_for_role";

pub const PA_EXT_DEVICE_MANAGER_SUBSCRIBE: &'static str = "pa_ext_device_manager_subscribe";

pub const PA_EXT_DEVICE_MANAGER_SET_SUBSCRIBE_CB: &'static str = "pa_ext_device_manager_set_subscribe_cb";

pub const PA_OPERATION_REF: &'static str = "pa_operation_ref";

pub const PA_OPERATION_UNREF: &'static str = "pa_operation_unref";

pub const PA_OPERATION_CANCEL: &'static str = "pa_operation_cancel";

pub const PA_OPERATION_GET_STATE: &'static str = "pa_operation_get_state";

pub const PA_OPERATION_SET_STATE_CALLBACK: &'static str = "pa_operation_set_state_callback";

pub const PA_SIMPLE_NEW: &'static str = "pa_simple_new";

pub const PA_SIMPLE_FREE: &'static str = "pa_simple_free";

pub const PA_SIMPLE_WRITE: &'static str = "pa_simple_write";

pub const PA_SIMPLE_DRAIN: &'static str = "pa_simple_drain";

pub const PA_SIMPLE_READ: &'static str = "pa_simple_read";

pub const PA_SIMPLE_GET_LATENCY: &'static str = "pa_simple_get_latency";

pub const PA_SIMPLE_FLUSH: &'static str = "pa_simple_flush";

pub const PA_GLIB_MAINLOOP_NEW: &'static str = "pa_glib_mainloop_new";

pub const PA_GLIB_MAINLOOP_FREE: &'static str = "pa_glib_mainloop_free";

pub const PA_GLIB_MAINLOOP_GET_API: &'static str = "pa_glib_mainloop_get_api";

/// Entry points of the core client library.
pub const PULSE_SYMBOLS: [&'static str; 372] = [
    PA_STREAM_CONNECT_UPLOAD,
    PA_STREAM_FINISH_UPLOAD,
    PA_STREAM_NEW,
    PA_STREAM_NEW_WITH_PROPLIST,
    PA_STREAM_NEW_EXTENDED,
    PA_STREAM_UNREF,
    PA_STREAM_REF,
    PA_STREAM_GET_STATE,
    PA_STREAM_GET_CONTEXT,
    PA_STREAM_GET_INDEX,
    PA_STREAM_GET_DEVICE_INDEX,
    PA_STREAM_GET_DEVICE_NAME,
    PA_STREAM_IS_SUSPENDED,
    PA_STREAM_IS_CORKED,
    PA_STREAM_CONNECT_PLAYBACK,
    PA_STREAM_CONNECT_RECORD,
    PA_STREAM_DISCONNECT,
    PA_STREAM_BEGIN_WRITE,
    PA_STREAM_CANCEL_WRITE,
    PA_STREAM_WRITE,
    PA_STREAM_WRITE_EXT_FREE,
    PA_STREAM_PEEK,
    PA_STREAM_DROP,
    PA_STREAM_WRITABLE_SIZE,
    PA_STREAM_READABLE_SIZE,
    PA_STREAM_DRAIN,
    PA_STREAM_UPDATE_TIMING_INFO,
    PA_STREAM_SET_STATE_CALLBACK,
    PA_STREAM_SET_WRITE_CALLBACK,
    PA_STREAM_SET_READ_CALLBACK,
    PA_STREAM_SET_OVERFLOW_CALLBACK,
    PA_STREAM_GET_UNDERFLOW_INDEX,
    PA_STREAM_SET_UNDERFLOW_CALLBACK,
    PA_STREAM_SET_STARTED_CALLBACK,
    PA_STREAM_SET_LATENCY_UPDATE_CALLBACK,
    PA_STREAM_SET_MOVED_CALLBACK,
    PA_STREAM_SET_SUSPENDED_CALLBACK,
    PA_STREAM_SET_EVENT_CALLBACK,
    PA_STREAM_SET_BUFFER_ATTR_CALLBACK,
    PA_STREAM_CORK,
    PA_STREAM_FLUSH,
    PA_STREAM_PREBUF,
    PA_STREAM_TRIGGER,
    PA_STREAM_SET_NAME,
    PA_STREAM_GET_TIME,
    PA_STREAM_GET_LATENCY,
    PA_STREAM_GET_TIMING_INFO,
    PA_STREAM_GET_SAMPLE_SPEC,
    PA_STREAM_GET_CHANNEL_MAP,
    PA_STREAM_GET_FORMAT_INFO,
    PA_STREAM_GET_BUFFER_ATTR,
    PA_STREAM_SET_BUFFER_ATTR,
    PA_STREAM_UPDATE_SAMPLE_RATE,
    PA_STREAM_PROPLIST_UPDATE,
    PA_STREAM_PROPLIST_REMOVE,
    PA_STREAM_SET_MONITOR_STREAM,
    PA_STREAM_GET_MONITOR_STREAM,
    PA_GETTIMEOFDAY,
    PA_TIMEVAL_DIFF,
    PA_TIMEVAL_CMP,
    PA_TIMEVAL_AGE,
    PA_TIMEVAL_ADD,
    PA_TIMEVAL_SUB,
    PA_TIMEVAL_STORE,
    PA_TIMEVAL_LOAD,
    PA_UTF8_VALID,
    PA_ASCII_VALID,
    PA_UTF8_FILTER,
    PA_ASCII_FILTER,
    PA_UTF8_TO_LOCALE,
    PA_LOCALE_TO_UTF8,
    PA_GET_USER_NAME,
    PA_GET_HOST_NAME,
    PA_GET_FQDN,
    PA_GET_HOME_DIR,
    PA_GET_BINARY_NAME,
    PA_PATH_GET_FILENAME,
    PA_MSLEEP,
    PA_THREAD_MAKE_REALTIME,
    PA_GET_LIBRARY_VERSION,
    PA_CVOLUME_EQUAL,
    PA_CVOLUME_INIT,
    PA_CVOLUME_SET,
    PA_CVOLUME_SNPRINT,
    PA_SW_CVOLUME_SNPRINT_DB,
    PA_CVOLUME_SNPRINT_VERBOSE,
    PA_VOLUME_SNPRINT,
    PA_SW_VOLUME_SNPRINT_DB,
    PA_VOLUME_SNPRINT_VERBOSE,
    PA_CVOLUME_AVG,
    PA_CVOLUME_AVG_MASK,
    PA_CVOLUME_MAX,
    PA_CVOLUME_MAX_MASK,
    PA_CVOLUME_MIN,
    PA_CVOLUME_MIN_MASK,
    PA_CVOLUME_VALID,
    PA_CVOLUME_CHANNELS_EQUAL_TO,
    PA_SW_VOLUME_MULTIPLY,
    PA_SW_CVOLUME_MULTIPLY,
    PA_SW_CVOLUME_MULTIPLY_SCALAR,
    PA_SW_VOLUME_DIVIDE,
    PA_SW_CVOLUME_DIVIDE,
    PA_SW_CVOLUME_DIVIDE_SCALAR,
    PA_SW_VOLUME_FROM_DB,
    PA_SW_VOLUME_TO_DB,
    PA_SW_VOLUME_FROM_LINEAR,
    PA_SW_VOLUME_TO_LINEAR,
    PA_CVOLUME_REMAP,
    PA_CVOLUME_COMPATIBLE,
    PA_CVOLUME_COMPATIBLE_WITH_CHANNEL_MAP,
    PA_CVOLUME_GET_BALANCE,
    PA_CVOLUME_SET_BALANCE,
    PA_CVOLUME_GET_FADE,
    PA_CVOLUME_SET_FADE,
    PA_CVOLUME_GET_LFE_BALANCE,
    PA_CVOLUME_SET_LFE_BALANCE,
    PA_CVOLUME_SCALE,
    PA_CVOLUME_SCALE_MASK,
    PA_CVOLUME_SET_POSITION,
    PA_CVOLUME_GET_POSITION,
    PA_CVOLUME_MERGE,
    PA_CVOLUME_INC_CLAMP,
    PA_CVOLUME_INC,
    PA_CVOLUME_DEC,
    PA_XMALLOC,
    PA_XMALLOC0,
    PA_XREALLOC,
    PA_XFREE,
    PA_XSTRDUP,
    PA_XSTRNDUP,
    PA_XMEMDUP,
    PA_BYTES_PER_SECOND,
    PA_FRAME_SIZE,
    PA_SAMPLE_SIZE,
    PA_SAMPLE_SIZE_OF_FORMAT,
    PA_BYTES_TO_USEC,
    PA_USEC_TO_BYTES,
    PA_SAMPLE_SPEC_INIT,
    PA_SAMPLE_FORMAT_VALID,
    PA_SAMPLE_RATE_VALID,
    PA_CHANNELS_VALID,
    PA_SAMPLE_SPEC_VALID,
    PA_SAMPLE_SPEC_EQUAL,
    PA_SAMPLE_FORMAT_TO_STRING,
    PA_PARSE_SAMPLE_FORMAT,
    PA_SAMPLE_SPEC_SNPRINT,
    PA_BYTES_SNPRINT,
    PA_SAMPLE_FORMAT_IS_LE,
    PA_SAMPLE_FORMAT_IS_BE,
    PA_RTCLOCK_NOW,
    PA_PROPLIST_NEW,
    PA_PROPLIST_FREE,
    PA_PROPLIST_KEY_VALID,
    PA_PROPLIST_SETS,
    PA_PROPLIST_SETP,
    PA_PROPLIST_SETF,
    PA_PROPLIST_SET,
    PA_PROPLIST_GETS,
    PA_PROPLIST_GET,
    PA_PROPLIST_UPDATE,
    PA_PROPLIST_UNSET,
    PA_PROPLIST_UNSET_MANY,
    PA_PROPLIST_ITERATE,
    PA_PROPLIST_TO_STRING,
    PA_PROPLIST_TO_STRING_SEP,
    PA_PROPLIST_FROM_STRING,
    PA_PROPLIST_CONTAINS,
    PA_PROPLIST_CLEAR,
    PA_PROPLIST_COPY,
    PA_PROPLIST_SIZE,
    PA_PROPLIST_ISEMPTY,
    PA_PROPLIST_EQUAL,
    PA_ENCODING_TO_STRING,
    PA_ENCODING_FROM_STRING,
    PA_FORMAT_INFO_NEW,
    PA_FORMAT_INFO_COPY,
    PA_FORMAT_INFO_FREE,
    PA_FORMAT_INFO_VALID,
    PA_FORMAT_INFO_IS_PCM,
    PA_FORMAT_INFO_IS_COMPATIBLE,
    PA_FORMAT_INFO_SNPRINT,
    PA_FORMAT_INFO_FROM_STRING,
    PA_FORMAT_INFO_FROM_SAMPLE_SPEC,
    PA_FORMAT_INFO_TO_SAMPLE_SPEC,
    PA_FORMAT_INFO_GET_PROP_TYPE,
    PA_FORMAT_INFO_GET_PROP_INT,
    PA_FORMAT_INFO_GET_PROP_INT_RANGE,
    PA_FORMAT_INFO_GET_PROP_INT_ARRAY,
    PA_FORMAT_INFO_GET_PROP_STRING,
    PA_FORMAT_INFO_GET_PROP_STRING_ARRAY,
    PA_FORMAT_INFO_FREE_STRING_ARRAY,
    PA_FORMAT_INFO_GET_SAMPLE_FORMAT,
    PA_FORMAT_INFO_GET_RATE,
    PA_FORMAT_INFO_GET_CHANNELS,
    PA_FORMAT_INFO_GET_CHANNEL_MAP,
    PA_FORMAT_INFO_SET_PROP_INT,
    PA_FORMAT_INFO_SET_PROP_INT_ARRAY,
    PA_FORMAT_INFO_SET_PROP_INT_RANGE,
    PA_FORMAT_INFO_SET_PROP_STRING,
    PA_FORMAT_INFO_SET_PROP_STRING_ARRAY,
    PA_FORMAT_INFO_SET_SAMPLE_FORMAT,
    PA_FORMAT_INFO_SET_RATE,
    PA_FORMAT_INFO_SET_CHANNELS,
    PA_FORMAT_INFO_SET_CHANNEL_MAP,
    PA_STRERROR,
    PA_DIRECTION_VALID,
    PA_DIRECTION_TO_STRING,
    PA_CHANNEL_MAP_INIT,
    PA_CHANNEL_MAP_INIT_MONO,
    PA_CHANNEL_MAP_INIT_STEREO,
    PA_CHANNEL_MAP_INIT_AUTO,
    PA_CHANNEL_MAP_INIT_EXTEND,
    PA_CHANNEL_POSITION_TO_STRING,
    PA_CHANNEL_POSITION_FROM_STRING,
    PA_CHANNEL_POSITION_TO_PRETTY_STRING,
    PA_CHANNEL_MAP_SNPRINT,
    PA_CHANNEL_MAP_PARSE,
    PA_CHANNEL_MAP_EQUAL,
    PA_CHANNEL_MAP_VALID,
    PA_CHANNEL_MAP_COMPATIBLE,
    PA_CHANNEL_MAP_SUPERSET,
    PA_CHANNEL_MAP_CAN_BALANCE,
    PA_CHANNEL_MAP_CAN_FADE,
    PA_CHANNEL_MAP_CAN_LFE_BALANCE,
    PA_CHANNEL_MAP_TO_NAME,
    PA_CHANNEL_MAP_TO_PRETTY_NAME,
    PA_CHANNEL_MAP_HAS_POSITION,
    PA_CHANNEL_MAP_MASK,
    PA_THREADED_MAINLOOP_NEW,
    PA_THREADED_MAINLOOP_FREE,
    PA_THREADED_MAINLOOP_START,
    PA_THREADED_MAINLOOP_STOP,
    PA_THREADED_MAINLOOP_LOCK,
    PA_THREADED_MAINLOOP_UNLOCK,
    PA_THREADED_MAINLOOP_WAIT,
    PA_THREADED_MAINLOOP_SIGNAL,
    PA_THREADED_MAINLOOP_ACCEPT,
    PA_THREADED_MAINLOOP_GET_RETVAL,
    PA_THREADED_MAINLOOP_GET_API,
    PA_THREADED_MAINLOOP_IN_THREAD,
    PA_THREADED_MAINLOOP_SET_NAME,
    PA_THREADED_MAINLOOP_ONCE_UNLOCKED,
    PA_MAINLOOP_NEW,
    PA_MAINLOOP_FREE,
    PA_MAINLOOP_PREPARE,
    PA_MAINLOOP_POLL,
    PA_MAINLOOP_DISPATCH,
    PA_MAINLOOP_GET_RETVAL,
    PA_MAINLOOP_ITERATE,
    PA_MAINLOOP_RUN,
    PA_MAINLOOP_GET_API,
    PA_MAINLOOP_QUIT,
    PA_MAINLOOP_WAKEUP,
    PA_MAINLOOP_SET_POLL_FUNC,
    PA_SIGNAL_INIT,
    PA_SIGNAL_DONE,
    PA_SIGNAL_NEW,
    PA_SIGNAL_FREE,
    PA_SIGNAL_SET_DESTROY,
    PA_MAINLOOP_API_ONCE,
    PA_CONTEXT_SUBSCRIBE,
    PA_CONTEXT_SET_SUBSCRIBE_CALLBACK,
    PA_CONTEXT_REMOVE_SAMPLE,
    PA_CONTEXT_PLAY_SAMPLE,
    PA_CONTEXT_PLAY_SAMPLE_WITH_PROPLIST,
    PA_CONTEXT_NEW,
    PA_CONTEXT_NEW_WITH_PROPLIST,
    PA_CONTEXT_UNREF,
    PA_CONTEXT_REF,
    PA_CONTEXT_SET_STATE_CALLBACK,
    PA_CONTEXT_SET_EVENT_CALLBACK,
    PA_CONTEXT_ERRNO,
    PA_CONTEXT_IS_PENDING,
    PA_CONTEXT_GET_STATE,
    PA_CONTEXT_CONNECT,
    PA_CONTEXT_DISCONNECT,
    PA_CONTEXT_DRAIN,
    PA_CONTEXT_EXIT_DAEMON,
    PA_CONTEXT_SET_DEFAULT_SINK,
    PA_CONTEXT_SET_DEFAULT_SOURCE,
    PA_CONTEXT_IS_LOCAL,
    PA_CONTEXT_SET_NAME,
    PA_CONTEXT_GET_SERVER,
    PA_CONTEXT_GET_PROTOCOL_VERSION,
    PA_CONTEXT_GET_SERVER_PROTOCOL_VERSION,
    PA_CONTEXT_PROPLIST_UPDATE,
    PA_CONTEXT_PROPLIST_REMOVE,
    PA_CONTEXT_GET_INDEX,
    PA_CONTEXT_RTTIME_NEW,
    PA_CONTEXT_RTTIME_RESTART,
    PA_CONTEXT_GET_TILE_SIZE,
    PA_CONTEXT_LOAD_COOKIE_FROM_FILE,
    PA_CONTEXT_GET_SINK_INFO_BY_NAME,
    PA_CONTEXT_GET_SINK_INFO_BY_INDEX,
    PA_CONTEXT_GET_SINK_INFO_LIST,
    PA_CONTEXT_SET_SINK_VOLUME_BY_INDEX,
    PA_CONTEXT_SET_SINK_VOLUME_BY_NAME,
    PA_CONTEXT_SET_SINK_MUTE_BY_INDEX,
    PA_CONTEXT_SET_SINK_MUTE_BY_NAME,
    PA_CONTEXT_SUSPEND_SINK_BY_NAME,
    PA_CONTEXT_SUSPEND_SINK_BY_INDEX,
    PA_CONTEXT_SET_SINK_PORT_BY_INDEX,
    PA_CONTEXT_SET_SINK_PORT_BY_NAME,
    PA_CONTEXT_GET_SOURCE_INFO_BY_NAME,
    PA_CONTEXT_GET_SOURCE_INFO_BY_INDEX,
    PA_CONTEXT_GET_SOURCE_INFO_LIST,
    PA_CONTEXT_SET_SOURCE_VOLUME_BY_INDEX,
    PA_CONTEXT_SET_SOURCE_VOLUME_BY_NAME,
    PA_CONTEXT_SET_SOURCE_MUTE_BY_INDEX,
    PA_CONTEXT_SET_SOURCE_MUTE_BY_NAME,
    PA_CONTEXT_SUSPEND_SOURCE_BY_NAME,
    PA_CONTEXT_SUSPEND_SOURCE_BY_INDEX,
    PA_CONTEXT_SET_SOURCE_PORT_BY_INDEX,
    PA_CONTEXT_SET_SOURCE_PORT_BY_NAME,
    PA_CONTEXT_GET_SERVER_INFO,
    PA_CONTEXT_GET_MODULE_INFO,
    PA_CONTEXT_GET_MODULE_INFO_LIST,
    PA_CONTEXT_LOAD_MODULE,
    PA_CONTEXT_UNLOAD_MODULE,
    PA_CONTEXT_SEND_MESSAGE_TO_OBJECT,
    PA_CONTEXT_GET_CLIENT_INFO,
    PA_CONTEXT_GET_CLIENT_INFO_LIST,
    PA_CONTEXT_KILL_CLIENT,
    PA_CONTEXT_GET_CARD_INFO_BY_INDEX,
    PA_CONTEXT_GET_CARD_INFO_BY_NAME,
    PA_CONTEXT_GET_CARD_INFO_LIST,
    PA_CONTEXT_SET_CARD_PROFILE_BY_INDEX,
    PA_CONTEXT_SET_CARD_PROFILE_BY_NAME,
    PA_CONTEXT_SET_PORT_LATENCY_OFFSET,
    PA_CONTEXT_GET_SINK_INPUT_INFO,
    PA_CONTEXT_GET_SINK_INPUT_INFO_LIST,
    PA_CONTEXT_MOVE_SINK_INPUT_BY_NAME,
    PA_CONTEXT_MOVE_SINK_INPUT_BY_INDEX,
    PA_CONTEXT_SET_SINK_INPUT_VOLUME,
    PA_CONTEXT_SET_SINK_INPUT_MUTE,
    PA_CONTEXT_KILL_SINK_INPUT,
    PA_CONTEXT_GET_SOURCE_OUTPUT_INFO,
    PA_CONTEXT_GET_SOURCE_OUTPUT_INFO_LIST,
    PA_CONTEXT_MOVE_SOURCE_OUTPUT_BY_NAME,
    PA_CONTEXT_MOVE_SOURCE_OUTPUT_BY_INDEX,
    PA_CONTEXT_SET_SOURCE_OUTPUT_VOLUME,
    PA_CONTEXT_SET_SOURCE_OUTPUT_MUTE,
    PA_CONTEXT_KILL_SOURCE_OUTPUT,
    PA_CONTEXT_STAT,
    PA_CONTEXT_GET_SAMPLE_INFO_BY_NAME,
    PA_CONTEXT_GET_SAMPLE_INFO_BY_INDEX,
    PA_CONTEXT_GET_SAMPLE_INFO_LIST,
    PA_EXT_STREAM_RESTORE_TEST,
    PA_EXT_STREAM_RESTORE_READ,
    PA_EXT_STREAM_RESTORE_WRITE,
    PA_EXT_STREAM_RESTORE_DELETE,
    PA_EXT_STREAM_RESTORE_SUBSCRIBE,
    PA_EXT_STREAM_RESTORE_SET_SUBSCRIBE_CB,
    PA_EXT_DEVICE_RESTORE_TEST,
    PA_EXT_DEVICE_RESTORE_SUBSCRIBE,
    PA_EXT_DEVICE_RESTORE_SET_SUBSCRIBE_CB,
    PA_EXT_DEVICE_RESTORE_READ_FORMATS_ALL,
    PA_EXT_DEVICE_RESTORE_READ_FORMATS,
    PA_EXT_DEVICE_RESTORE_SAVE_FORMATS,
    PA_EXT_DEVICE_MANAGER_TEST,
    PA_EXT_DEVICE_MANAGER_READ,
    PA_EXT_DEVICE_MANAGER_SET_DEVICE_DESCRIPTION,
    PA_EXT_DEVICE_MANAGER_DELETE,
    PA_EXT_DEVICE_MANAGER_ENABLE_ROLE_DEVICE_PRIORITY_ROUTING,
    PA_EXT_DEVICE_MANAGER_REORDER_DEVICES_FOR_ROLE,
    PA_EXT_DEVICE_MANAGER_SUBSCRIBE,
    PA_EXT_DEVICE_MANAGER_SET_SUBSCRIBE_CB,
    PA_OPERATION_REF,
    PA_OPERATION_UNREF,
    PA_OPERATION_CANCEL,
    PA_OPERATION_GET_STATE,
    PA_OPERATION_SET_STATE_CALLBACK,
];

/// Entry points of the simplified blocking I/O library.
pub const PULSE_SIMPLE_SYMBOLS: [&'static str; 7] = [
    PA_SIMPLE_NEW,
    PA_SIMPLE_FREE,
    PA_SIMPLE_WRITE,
    PA_SIMPLE_DRAIN,
    PA_SIMPLE_READ,
    PA_SIMPLE_GET_LATENCY,
    PA_SIMPLE_FLUSH,
];

/// Entry points of the GLib main loop integration library.
pub const PULSE_MAINLOOP_GLIB_SYMBOLS: [&'static str; 3] = [
    PA_GLIB_MAINLOOP_NEW,
    PA_GLIB_MAINLOOP_FREE,
    PA_GLIB_MAINLOOP_GET_API,
];

} // verus!
