//! Plain records the server reports about itself.

#![allow(non_camel_case_types)]

use vstd::prelude::*;

verus! {

/// Memory block statistics.
#[derive(Debug)]
pub struct pa_stat_info {
    /// Currently allocated memory blocks.
    pub memblock_total: u32,
    /// Current total size of allocated memory blocks.
    pub memblock_total_size: u32,
    /// Allocated memory blocks during the whole lifetime of the daemon.
    pub memblock_allocated: u32,
    /// Total size of all memory blocks allocated during the whole lifetime of the daemon.
    pub memblock_allocated_size: u32,
    /// Total size of all sample cache entries.
    pub scache_size: u32,
}

} // verus!
