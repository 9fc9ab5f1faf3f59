//! The request, progress and result records of the prime enumeration.

use vstd::prelude::*;

verus! {

/// The batch threshold of a request that names none.
pub const DEFAULT_BATCH_SIZE: u32 = 10000;

/// What a caller submits: the bound up to which primes are enumerated, and
/// optionally after how many examined candidates a progress record is due.
#[derive(Debug, Clone, Copy, PartialEq, Eq)]
pub struct PrimeCalculationRequest {
    pub upper_bound: u64,
    pub batch_size: Option<u32>,
}

impl PrimeCalculationRequest {
    /// The batch threshold in force: the one named, else the default.
    pub open spec fn spec_effective_batch_size(&self) -> u32 {
        match self.batch_size {
            Some(size) => size,
            None => DEFAULT_BATCH_SIZE,
        }
    }

    /// The batch threshold in force: the one named, else the default.
    pub fn effective_batch_size(&self) -> (size: u32)
        ensures
            size == self.spec_effective_batch_size(),
    {
        match self.batch_size {
            Some(size) => size,
            None => DEFAULT_BATCH_SIZE,
        }
    }
}

/// One point-in-time record of a running enumeration.
///
/// `percentage_complete` is a whole number of percent.
#[derive(Debug, Clone, Copy, PartialEq, Eq)]
pub struct PrimeProgress {
    pub current_number: u64,
    pub found_primes: u32,
    pub percentage_complete: u8,
    pub current_memory_usage: u64,
    pub elapsed_time_ms: u64,
}

impl PrimeProgress {
    /// The record of a task that has not examined anything yet.
    pub open spec fn spec_zeroed() -> PrimeProgress {
        PrimeProgress {
            current_number: 0,
            found_primes: 0,
            percentage_complete: 0,
            current_memory_usage: 0,
            elapsed_time_ms: 0,
        }
    }

    /// The record of a task that has not examined anything yet.
    pub fn zeroed() -> (progress: PrimeProgress)
        ensures
            progress == Self::spec_zeroed(),
    {
        PrimeProgress {
            current_number: 0,
            found_primes: 0,
            percentage_complete: 0,
            current_memory_usage: 0,
            elapsed_time_ms: 0,
        }
    }
}

/// The result of a finished enumeration.
///
/// `average_check_time_ns` is rounded down to whole nanoseconds.
#[derive(Debug, Clone, PartialEq, Eq)]
pub struct PrimeCalculationMetrics {
    pub primes: Vec<u64>,
    pub found_primes: u32,
    pub total_time_ms: u64,
    pub max_memory_bytes: u64,
    pub numbers_checked: u64,
    pub average_check_time_ns: u64,
}

/// The mathematical content of a `PrimeCalculationMetrics`.
pub ghost struct PrimeCalculationMetricsView {
    pub primes: Seq<u64>,
    pub found_primes: u32,
    pub total_time_ms: u64,
    pub max_memory_bytes: u64,
    pub numbers_checked: u64,
    pub average_check_time_ns: u64,
}

impl View for PrimeCalculationMetrics {
    type V = PrimeCalculationMetricsView;

    open spec fn view(&self) -> PrimeCalculationMetricsView {
        PrimeCalculationMetricsView {
            primes: self.primes@,
            found_primes: self.found_primes,
            total_time_ms: self.total_time_ms,
            max_memory_bytes: self.max_memory_bytes,
            numbers_checked: self.numbers_checked,
            average_check_time_ns: self.average_check_time_ns,
        }
    }
}

} // verus!
