//! What the metric sampler hands the request handlers. The sampling
//! itself — reading the platform's counters — is an outside collaborator;
//! the handlers receive its plain values and the conversion to megabytes
//! is done here.

use vstd::prelude::*;

verus! {

/// A point-in-time CPU reading: the core count, the average usage over
/// two consecutive readings, and the per-core percentages as the sampler
/// rendered them.
pub struct CpuInfo {
    pub total_cpus: u32,
    pub total_cpu_usage: u32,
    pub cores_usage: String,
}

/// Convert a raw memory reading, in bytes, to the three megabyte figures
/// the memory endpoint reports.
pub fn print_memory_info(total: u64, used: u64, free: u64) -> (r: [u64; 3])
    ensures
        r@.len() == 3,
        r@[0] == total / 1024 / 1024,
        r@[1] == used / 1024 / 1024,
        r@[2] == free / 1024 / 1024,
{
    [total / 1024 / 1024, used / 1024 / 1024, free / 1024 / 1024]
}

} // verus!
