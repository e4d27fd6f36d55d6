//! What every call site does with the table it asked for.
//!
//! With a table, the call goes to the native entry point and its answer
//! comes back untouched. Without one, nothing native is called and the call
//! site answers with the fixed value of its result type: a null address for
//! pointers, `-1` for status codes, zero for flags and counts, the muted
//! volume, the invalid or initial variant of an enumeration, and nothing at
//! all where nothing is returned.

use crate::context::pa_context_state_t;
use crate::format::{pa_encoding_t, pa_prop_type_t};
use crate::symbols::{
    PA_CONTEXT_IS_LOCAL, PA_CONTEXT_IS_PENDING, PA_CVOLUME_CHANNELS_EQUAL_TO,
    PA_CVOLUME_COMPATIBLE, PA_CVOLUME_COMPATIBLE_WITH_CHANNEL_MAP, PA_CVOLUME_EQUAL,
    PA_CVOLUME_VALID, PA_FORMAT_INFO_IS_COMPATIBLE, PA_FORMAT_INFO_IS_PCM, PA_FORMAT_INFO_VALID,
    PA_THREADED_MAINLOOP_IN_THREAD, PA_TIMEVAL_CMP,
};
use crate::table::same_name;
use crate::volume::{pa_volume_t, PA_VOLUME_MUTED};
use vstd::prelude::*;

verus! {

/// The address that stands for "no object".
pub const NULL_ADDRESS: usize = 0;

/// The status code that stands for failure.
pub const STATUS_FAILED: i32 = -1;

/// The neutral answer to a yes/no question asked as an integer.
pub const FLAG_UNSET: i32 = 0;

/// The operations that answer a question with an integer: yes or no, equal
/// or not, before or after. Their neutral answer is zero. Every other
/// operation with an integer result returns a status.
pub const PREDICATES: [&'static str; 12] = [
    PA_CONTEXT_IS_PENDING,
    PA_CONTEXT_IS_LOCAL,
    PA_FORMAT_INFO_VALID,
    PA_FORMAT_INFO_IS_PCM,
    PA_FORMAT_INFO_IS_COMPATIBLE,
    PA_THREADED_MAINLOOP_IN_THREAD,
    PA_TIMEVAL_CMP,
    PA_CVOLUME_EQUAL,
    PA_CVOLUME_VALID,
    PA_CVOLUME_CHANNELS_EQUAL_TO,
    PA_CVOLUME_COMPATIBLE,
    PA_CVOLUME_COMPATIBLE_WITH_CHANNEL_MAP,
];

/// Whether the operation called `name` is one of the [`PREDICATES`].
pub open spec fn is_predicate(name: Seq<char>) -> bool {
    exists|i: int| 0 <= i < PREDICATES@.len() && (#[trigger] PREDICATES@[i])@ == name
}

/// What the operation called `name` answers without a table, if its result
/// is an integer: zero for a predicate, `-1` for everything else.
pub open spec fn integer_sentinel(name: Seq<char>) -> i32 {
    if is_predicate(name) {
        FLAG_UNSET
    } else {
        STATUS_FAILED
    }
}

/// Whether the operation called `name` is one of the [`PREDICATES`].
pub fn is_predicate_operation(name: &str) -> (listed: bool)
    ensures
        listed == is_predicate(name@),
{
    let mut index: usize = 0;
    while index < 12
        invariant
            index <= 12,
            PREDICATES@.len() == 12,
            forall|i: int| 0 <= i < index ==> (#[trigger] PREDICATES@[i])@ != name@,
        decreases 12 - index,
    {
        if same_name(PREDICATES[index], name) {
            return true;
        }
        index += 1;
    }
    false
}

/// What a call site may answer: with a table, whatever `call` gives on it;
/// without one, `sentinel` and nothing else.
pub open spec fn dispatched<T, V, F: FnOnce(T) -> V>(
    table: Option<T>,
    sentinel: V,
    call: F,
    answer: V,
) -> bool {
    match table {
        Some(functions) => call_ensures(call, (functions,), answer),
        None => answer == sentinel,
    }
}

/// The call-site rule, once for all result types: `call` runs only if there
/// is a table, and otherwise `sentinel` is the answer. `call` takes what was
/// resolved as its argument, so without it there is nothing to call it with.
pub fn call_or<T, V, F: FnOnce(T) -> V>(table: Option<T>, sentinel: V, call: F) -> (answer: V)
    requires
        table matches Some(functions) ==> call_requires(call, (functions,)),
    ensures
        dispatched(table, sentinel, call, answer),
{
    match table {
        Some(functions) => call(functions),
        None => sentinel,
    }
}

/// A call that returns an address: null without a table.
pub fn pointer_or<T, F: FnOnce(T) -> usize>(table: Option<T>, call: F) -> (answer: usize)
    requires
        table matches Some(functions) ==> call_requires(call, (functions,)),
    ensures
        dispatched(table, NULL_ADDRESS, call, answer),
        table is None ==> answer == 0,
{
    call_or(table, NULL_ADDRESS, call)
}

/// A call that returns a status code: `-1` without a table.
pub fn status_or<T, F: FnOnce(T) -> i32>(table: Option<T>, call: F) -> (answer: i32)
    requires
        table matches Some(functions) ==> call_requires(call, (functions,)),
    ensures
        dispatched(table, STATUS_FAILED, call, answer),
        table is None ==> answer == -1,
{
    call_or(table, STATUS_FAILED, call)
}

/// A call that answers a yes/no question as an integer: `0` without a
/// table.
pub fn flag_or<T, F: FnOnce(T) -> i32>(table: Option<T>, call: F) -> (answer: i32)
    requires
        table matches Some(functions) ==> call_requires(call, (functions,)),
    ensures
        dispatched(table, FLAG_UNSET, call, answer),
        table is None ==> answer == 0,
{
    call_or(table, FLAG_UNSET, call)
}

/// A call of the operation `name`, which returns an integer: without a
/// table it answers `0` if the operation is a predicate and `-1` if it is
/// not.
pub fn integer_or<T, F: FnOnce(T) -> i32>(table: Option<T>, name: &str, call: F) -> (answer: i32)
    requires
        table matches Some(functions) ==> call_requires(call, (functions,)),
    ensures
        dispatched(table, integer_sentinel(name@), call, answer),
{
    if is_predicate_operation(name) {
        flag_or(table, call)
    } else {
        status_or(table, call)
    }
}

/// A call that returns a 32-bit index, version or count: `0` without a
/// table.
pub fn count_or<T, F: FnOnce(T) -> u32>(table: Option<T>, call: F) -> (answer: u32)
    requires
        table matches Some(functions) ==> call_requires(call, (functions,)),
    ensures
        dispatched(table, 0u32, call, answer),
{
    call_or(table, 0u32, call)
}

/// A call that returns a size in bytes: `0` without a table.
pub fn size_or<T, F: FnOnce(T) -> usize>(table: Option<T>, call: F) -> (answer: usize)
    requires
        table matches Some(functions) ==> call_requires(call, (functions,)),
    ensures
        dispatched(table, 0usize, call, answer),
{
    call_or(table, 0usize, call)
}

/// A call that returns a time in microseconds: `0` without a table.
pub fn usec_or<T, F: FnOnce(T) -> u64>(table: Option<T>, call: F) -> (answer: u64)
    requires
        table matches Some(functions) ==> call_requires(call, (functions,)),
    ensures
        dispatched(table, 0u64, call, answer),
{
    call_or(table, 0u64, call)
}

/// A call that returns a volume: muted without a table.
pub fn volume_or<T, F: FnOnce(T) -> pa_volume_t>(table: Option<T>, call: F) -> (answer:
    pa_volume_t)
    requires
        table matches Some(functions) ==> call_requires(call, (functions,)),
    ensures
        dispatched(table, PA_VOLUME_MUTED, call, answer),
        table is None ==> answer == 0,
{
    call_or(table, PA_VOLUME_MUTED, call)
}

/// A call that returns the state of a context: unconnected without a
/// table.
pub fn context_state_or<T, F: FnOnce(T) -> pa_context_state_t>(table: Option<T>, call: F) -> (answer:
    pa_context_state_t)
    requires
        table matches Some(functions) ==> call_requires(call, (functions,)),
    ensures
        dispatched(table, pa_context_state_t::Unconnected, call, answer),
{
    call_or(table, pa_context_state_t::Unconnected, call)
}

/// A call that returns an encoding: invalid without a table.
pub fn encoding_or<T, F: FnOnce(T) -> pa_encoding_t>(table: Option<T>, call: F) -> (answer:
    pa_encoding_t)
    requires
        table matches Some(functions) ==> call_requires(call, (functions,)),
    ensures
        dispatched(table, pa_encoding_t::Invalid, call, answer),
{
    call_or(table, pa_encoding_t::Invalid, call)
}

/// A call that returns the type of a property: invalid without a table.
pub fn prop_type_or<T, F: FnOnce(T) -> pa_prop_type_t>(table: Option<T>, call: F) -> (answer:
    pa_prop_type_t)
    requires
        table matches Some(functions) ==> call_requires(call, (functions,)),
    ensures
        dispatched(table, pa_prop_type_t::Invalid, call, answer),
{
    call_or(table, pa_prop_type_t::Invalid, call)
}

/// A call that returns nothing: without a table it does nothing.
pub fn unit_or<T, F: FnOnce(T) -> ()>(table: Option<T>, call: F)
    requires
        table matches Some(functions) ==> call_requires(call, (functions,)),
    ensures
        table matches Some(functions) ==> call_ensures(call, (functions,), ()),
{
    call_or(table, (), call)
}

/// Without a table the answer is the sentinel, whatever the call would
/// have done.
pub proof fn lemma_absent_table_gives_sentinel<T, V, F: FnOnce(T) -> V>(
    sentinel: V,
    call: F,
    answer: V,
)
    requires
        dispatched(None::<T>, sentinel, call, answer),
    ensures
        answer == sentinel,
{
}

} // verus!
