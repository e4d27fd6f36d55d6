//! Sizes for the native allocator.

use crate::fallback::NULL_ADDRESS;
use vstd::prelude::*;

verus! {

/// Whether `n` structures of `k` bytes each may be asked for: the
/// structure is not empty and the count stays below `i32::MAX / k`.
pub open spec fn array_fits(n: usize, k: usize) -> bool {
    k > 0 && n < 0x7fff_ffffint / (k as int)
}

/// The number of bytes that `n` structures of `k` bytes each take.
pub fn array_size(n: usize, k: usize) -> (bytes: usize)
    requires
        array_fits(n, k),
    ensures
        bytes == n * k,
        bytes < 0x7fff_ffff,
{
    assert(n * k < 0x7fff_ffff) by (nonlinear_arith)
        requires
            k > 0,
            n < 0x7fff_ffffint / (k as int),
    ;
    n * k
}

/// The number of bytes that `n` structures of `k` bytes each take, or
/// `None` where that many may not be asked for.
pub fn checked_array_size(n: usize, k: usize) -> (bytes: Option<usize>)
    ensures
        array_fits(n, k) ==> bytes == Some((n * k) as usize),
        !array_fits(n, k) ==> bytes is None,
{
    if k != 0 && n < 0x7fff_ffff / k {
        Some(array_size(n, k))
    } else {
        None
    }
}

/// What a call site that allocates an array may answer. Without a table
/// it answers the null address, whatever `n` and `k` are. With one, it
/// answers what `call` gives for `n * k` bytes.
pub open spec fn array_dispatched<T, F: FnOnce(T, usize) -> usize>(
    table: Option<T>,
    n: usize,
    k: usize,
    call: F,
    answer: usize,
) -> bool {
    match table {
        Some(functions) => call_ensures(call, (functions, (n * k) as usize), answer),
        None => answer == NULL_ADDRESS,
    }
}

/// A call that allocates room for `n` structures of `k` bytes each, for
/// every `n` and `k`. The size is worked out only once there is a table to
/// ask: without one the answer is the null address. With one, the answer is
/// `None` where that many structures may not be asked for, so that nothing
/// is called with a size that does not fit.
pub fn array_or<T, F: FnOnce(T, usize) -> usize>(
    table: Option<T>,
    n: usize,
    k: usize,
    call: F,
) -> (answer: Option<usize>)
    requires
        table matches Some(functions) ==> forall|size: usize| call_requires(call, (functions, size)),
    ensures
        answer is None <==> table is Some && !array_fits(n, k),
        answer matches Some(address) ==> array_dispatched(table, n, k, call, address),
{
    match table {
        Some(functions) => match checked_array_size(n, k) {
            Some(size) => Some(call(functions, size)),
            None => None,
        },
        None => Some(NULL_ADDRESS),
    }
}

} // verus!
