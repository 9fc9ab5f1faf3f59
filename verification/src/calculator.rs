//! The prime enumeration as a computation that reports progress.
//!
//! The calculator examines the odd candidates from 5 on, one at a time, and
//! stops whenever a progress record is due, so that the caller can hand the
//! record on before the enumeration is resumed.

use vstd::prelude::*;
use crate::clock::{low_u64, millis_of, spec_low_u64, spec_millis_of};
use crate::prime_calculation::{
    PrimeCalculationMetrics,
    PrimeCalculationMetricsView,
    PrimeProgress,
};
use crate::primes::{
    is_prime,
    is_prime_number,
    lemma_even_not_prime,
    lemma_first_primes,
    primes_up_to,
};

verus! {

/// The time after which a progress record is due whatever the count, in
/// milliseconds.
pub const EMIT_INTERVAL_MS: u64 = 1000;

/// The bytes that one discovered value occupies.
pub const BYTES_PER_VALUE: u64 = 8;

/// The smaller of two numbers.
pub open spec fn smaller(a: nat, b: nat) -> nat {
    if a <= b {
        a
    } else {
        b
    }
}

/// The share of `total` that `current` has reached, in whole percent and
/// never above 100. Nothing to do counts as all done.
pub open spec fn spec_percentage(current: u64, total: u64) -> u8 {
    if total == 0 || current >= total {
        100
    } else {
        (current * 100 / (total as int)) as u8
    }
}

/// The share of `total` that `current` has reached, in whole percent and
/// never above 100.
pub fn percentage(current: u64, total: u64) -> (percent: u8)
    ensures
        percent == spec_percentage(current, total),
        percent <= 100,
{
    if total == 0 || current >= total {
        100
    } else {
        let scaled: u128 = current as u128 * 100;
        let share: u128 = scaled / (total as u128);
        assert(share < 100) by (nonlinear_arith)
            requires
                share == (current * 100) / (total as int),
                current < total,
                total > 0,
        ;
        share as u8
    }
}

/// The percentage never falls as the work goes on, and stays within 0 and
/// 100.
pub proof fn lemma_percentage_never_falls(earlier: u64, later: u64, total: u64)
    requires
        earlier <= later,
    ensures
        0 <= spec_percentage(earlier, total) <= spec_percentage(later, total) <= 100,
{
    if total > 0 && earlier < total {
        let low = earlier * 100 / (total as int);
        assert(0 <= low < 100) by (nonlinear_arith)
            requires
                low == earlier * 100 / (total as int),
                0 <= earlier < total,
        ;
        if later < total {
            let high = later * 100 / (total as int);
            assert(low <= high) by {
                vstd::arithmetic::div_mod::lemma_div_is_ordered(
                    earlier * 100,
                    later * 100,
                    total as int,
                );
            }
            assert(high < 100) by (nonlinear_arith)
                requires
                    high == later * 100 / (total as int),
                    0 <= later < total,
            ;
        }
    }
}

/// A count as a 32-bit counter shows it: its low 32 bits.
pub open spec fn spec_count_u32(count: nat) -> u32 {
    (count % 0x1_0000_0000) as u32
}

/// Whether a progress record is due: the count of examined candidates has
/// reached a multiple of the batch threshold, or the interval has passed
/// since the last record.
pub open spec fn spec_emission_due(numbers_checked: u64, batch_size: u32, since_last_ms: u64) -> bool {
    (batch_size > 0 && numbers_checked % (batch_size as u64) == 0) || since_last_ms
        >= EMIT_INTERVAL_MS
}

/// Whether a progress record is due after `numbers_checked` candidates and
/// `since_last_ms` milliseconds since the last record.
pub fn emission_due(numbers_checked: u64, batch_size: u32, since_last_ms: u64) -> (due: bool)
    ensures
        due == spec_emission_due(numbers_checked, batch_size, since_last_ms),
{
    (batch_size > 0 && numbers_checked % (batch_size as u64) == 0) || since_last_ms
        >= EMIT_INTERVAL_MS
}

/// The bytes that room for `capacity` discovered values occupies, at most
/// `u64::MAX`.
pub open spec fn spec_memory_bytes(capacity: usize) -> u64 {
    if capacity * BYTES_PER_VALUE > u64::MAX {
        u64::MAX
    } else {
        (capacity * BYTES_PER_VALUE) as u64
    }
}

/// The bytes that room for `capacity` discovered values occupies.
pub fn memory_bytes(capacity: usize) -> (bytes: u64)
    ensures
        bytes == spec_memory_bytes(capacity),
{
    match (capacity as u64).checked_mul(BYTES_PER_VALUE) {
        Some(bytes) => bytes,
        None => u64::MAX,
    }
}

/// `Vec::capacity`: the number of values the vector has room for. It depends
/// on the allocator, so nothing is claimed of it.
#[verifier::external_body]
fn vec_capacity(values: &Vec<u64>) -> (capacity: usize) {
    values.capacity()
}

/// Where an enumeration stands: its two parameters and the last candidate
/// that was examined (3 before the first one).
pub ghost struct CalculatorView {
    pub upper_bound: u64,
    pub batch_size: u32,
    pub current: u64,
}

impl CalculatorView {
    /// The state before the first candidate is examined.
    pub open spec fn initial(upper_bound: u64, batch_size: u32) -> CalculatorView {
        CalculatorView { upper_bound, batch_size, current: 3 }
    }

    /// The last examined candidate is odd, and within the bound unless none
    /// was examined.
    pub open spec fn valid(self) -> bool {
        &&& self.current >= 3
        &&& self.current % 2 == 1
        &&& self.current <= self.upper_bound || self.current == 3
    }

    /// No candidate is left within the bound.
    pub open spec fn finished(self) -> bool {
        self.current + 2 > self.upper_bound
    }

    /// The number of candidates that are left.
    pub open spec fn remaining(self) -> nat {
        if self.finished() {
            0
        } else {
            ((self.upper_bound - self.current) / 2) as nat
        }
    }

    /// The number of candidates examined so far.
    pub open spec fn numbers_checked(self) -> u64 {
        ((self.current - 3) / 2) as u64
    }

    /// The values discovered so far: the primes up to the last examined
    /// candidate that are within the bound.
    pub open spec fn found(self) -> Seq<u64> {
        primes_up_to(smaller(self.current as nat, self.upper_bound as nat))
    }

    /// The state with one more candidate examined.
    pub open spec fn next(self) -> CalculatorView {
        CalculatorView { current: (self.current + 2) as u64, ..self }
    }

    /// The progress record of this state, with the two readings that the
    /// state does not fix.
    pub open spec fn progress(self, elapsed_ms: u64, memory: u64) -> PrimeProgress {
        PrimeProgress {
            current_number: self.current,
            found_primes: spec_count_u32(self.found().len()),
            percentage_complete: spec_percentage(self.current, self.upper_bound),
            current_memory_usage: memory,
            elapsed_time_ms: elapsed_ms,
        }
    }

    /// The result record of this state, with the two readings that the state
    /// does not fix.
    pub open spec fn metrics(self, total_ns: u128, memory: u64) -> PrimeCalculationMetricsView {
        PrimeCalculationMetricsView {
            primes: self.found(),
            found_primes: spec_count_u32(self.found().len()),
            total_time_ms: spec_millis_of(total_ns),
            max_memory_bytes: memory,
            numbers_checked: self.numbers_checked(),
            average_check_time_ns: if self.numbers_checked() == 0 {
                0
            } else {
                spec_low_u64(total_ns / (self.numbers_checked() as u128))
            },
        }
    }

    /// `metrics` is the result record of this state for some total time.
    pub open spec fn has_result(self, metrics: PrimeCalculationMetricsView) -> bool {
        exists|total_ns: u128| metrics == #[trigger] self.metrics(total_ns, metrics.max_memory_bytes)
    }
}

/// No count in `(from, to]` is a multiple of the batch threshold.
pub open spec fn no_batch_boundary(from: u64, to: u64, batch_size: u32) -> bool {
    forall|count: u64| from < count <= to ==> #[trigger] (count as int % batch_size as int) != 0
}

/// What the caller has to do after a run of the calculator.
#[derive(Debug, Clone, PartialEq, Eq)]
pub enum CalculationStep {
    /// A progress record is due: hand it on, then run the calculator again.
    Progress(PrimeProgress),
    /// The enumeration has ended with this result.
    Completed(PrimeCalculationMetrics),
    /// The enumeration could not proceed, for this reason.
    Failed(String),
}

/// The reason with which an enumeration with batch threshold 0 fails.
pub open spec fn invalid_batch_reason() -> Seq<char> {
    "batch size must be positive"@
}

/// How a run of the calculator relates the state before it, the state after
/// it and the step that it returns, whatever the clock showed: the state
/// only moves forward; a progress record is that of the state reached,
/// comes after at least one candidate and before a multiple of the batch
/// threshold is passed over; a result is that of a finished state, and
/// comes without a multiple of the batch threshold having been reached.
pub open spec fn run_outcome(before: CalculatorView, after: CalculatorView, step: CalculationStep) -> bool {
    &&& after.upper_bound == before.upper_bound
    &&& after.batch_size == before.batch_size
    &&& before.current <= after.current
    &&& match step {
        CalculationStep::Progress(record) => {
            &&& before.current < after.current
            &&& after.remaining() < before.remaining()
            &&& record == after.progress(record.elapsed_time_ms, record.current_memory_usage)
            &&& no_batch_boundary(
                before.numbers_checked(),
                (after.numbers_checked() - 1) as u64,
                before.batch_size,
            )
        },
        CalculationStep::Completed(metrics) => {
            &&& after.finished()
            &&& after.has_result(metrics@)
            &&& no_batch_boundary(
                before.numbers_checked(),
                after.numbers_checked(),
                before.batch_size,
            )
        },
        CalculationStep::Failed(_) => false,
    }
}

/// Within one enumeration the percentage of a later progress record is at
/// least that of an earlier one, and both lie within 0 and 100, whatever
/// time and memory the records show. The record of a task that has not
/// begun shows 0.
pub proof fn lemma_progress_never_falls(
    earlier: CalculatorView,
    later: CalculatorView,
    earlier_ms: u64,
    earlier_memory: u64,
    later_ms: u64,
    later_memory: u64,
)
    requires
        earlier.upper_bound == later.upper_bound,
        earlier.current <= later.current,
    ensures
        PrimeProgress::spec_zeroed().percentage_complete == 0,
        0 <= earlier.progress(earlier_ms, earlier_memory).percentage_complete
            <= later.progress(later_ms, later_memory).percentage_complete <= 100,
{
    lemma_percentage_never_falls(earlier.current, later.current, earlier.upper_bound);
}

/// A run of the calculator never moves the state back, so the record it
/// returns shows at least the percentage of any record of the state
/// before it.
pub proof fn lemma_run_never_falls(
    before: CalculatorView,
    after: CalculatorView,
    step: CalculationStep,
    elapsed_ms: u64,
    memory: u64,
)
    requires
        run_outcome(before, after, step),
    ensures
        step matches CalculationStep::Progress(record) ==> before.progress(
            elapsed_ms,
            memory,
        ).percentage_complete <= record.percentage_complete <= 100,
{
    lemma_percentage_never_falls(before.current, after.current, before.upper_bound);
}

/// A finished enumeration has discovered every prime within its bound.
pub proof fn lemma_finished_found_all(state: CalculatorView)
    requires
        state.valid(),
        state.finished(),
    ensures
        state.found() == primes_up_to(state.upper_bound as nat),
{
    if state.current < state.upper_bound {
        lemma_even_not_prime(state.upper_bound as nat);
    }
}

/// A course of runs: each state but the first is what the run before it
/// left, with the step that the run returned.
pub open spec fn is_course(states: Seq<CalculatorView>, steps: Seq<CalculationStep>) -> bool {
    &&& states.len() == steps.len() + 1
    &&& forall|i: int|
        0 <= i < steps.len() ==> #[trigger] run_outcome(states[i], states[i + 1], steps[i])
}

/// An enumeration ends: the progress records that a course of runs can
/// return before its terminal step are at most as many as the candidates
/// that were left when it began.
pub proof fn lemma_progress_is_bounded(states: Seq<CalculatorView>, steps: Seq<CalculationStep>)
    requires
        is_course(states, steps),
        forall|i: int| 0 <= i < steps.len() ==> #[trigger] steps[i] is Progress,
    ensures
        steps.len() + states.last().remaining() <= states[0].remaining(),
    decreases steps.len(),
{
    if steps.len() > 0 {
        let shorter_states = states.drop_last();
        let shorter_steps = steps.drop_last();
        assert(is_course(shorter_states, shorter_steps)) by {
            assert forall|i: int| 0 <= i < shorter_steps.len() implies #[trigger] run_outcome(
                shorter_states[i],
                shorter_states[i + 1],
                shorter_steps[i],
            ) by {
                assert(run_outcome(states[i], states[i + 1], steps[i]));
            }
        }
        assert forall|i: int| 0 <= i < shorter_steps.len() implies #[trigger] shorter_steps[i]
            is Progress by {
            assert(steps[i] is Progress);
        }
        lemma_progress_is_bounded(shorter_states, shorter_steps);
        let last = steps.len() - 1;
        assert(run_outcome(states[last], states[last + 1], steps[last]));
        assert(steps[last] is Progress);
        assert(shorter_states.last() == states[last]);
        assert(states.last() == states[last + 1]);
    }
}

/// The enumeration of the primes up to a bound, resumable between progress
/// records.
#[derive(Debug)]
pub struct PrimeCalculator {
    upper_bound: u64,
    batch_size: u32,
    current: u64,
    numbers_checked: u64,
    primes: Vec<u64>,
    started: std::time::Instant,
}

impl View for PrimeCalculator {
    type V = CalculatorView;

    closed spec fn view(&self) -> CalculatorView {
        CalculatorView {
            upper_bound: self.upper_bound,
            batch_size: self.batch_size,
            current: self.current,
        }
    }
}

impl PrimeCalculator {
    /// The counters and the discovered values agree with the state.
    pub closed spec fn wf(&self) -> bool {
        &&& self@.valid()
        &&& self.numbers_checked == self@.numbers_checked()
        &&& self.primes@ == self@.found()
    }

    /// The state of a well-formed calculator is valid.
    pub proof fn lemma_wf_is_valid(&self)
        requires
            self.wf(),
        ensures
            self@.valid(),
    {
    }

    /// A calculator for the primes up to `upper_bound` that owes a progress
    /// record every `batch_size` candidates. Its clock starts now.
    pub fn new(upper_bound: u64, batch_size: u32) -> (calculator: PrimeCalculator)
        ensures
            calculator.wf(),
            calculator@ == CalculatorView::initial(upper_bound, batch_size),
    {
        let mut primes: Vec<u64> = Vec::new();
        if upper_bound >= 2 {
            primes.push(2);
        }
        if upper_bound >= 3 {
            primes.push(3);
        }
        proof {
            lemma_first_primes();
            assert(primes@ =~= primes_up_to(smaller(3, upper_bound as nat)));
        }
        PrimeCalculator {
            upper_bound,
            batch_size,
            current: 3,
            numbers_checked: 0,
            primes,
            started: std::time::Instant::now(),
        }
    }

    /// The bound up to which primes are enumerated.
    pub fn upper_bound(&self) -> (bound: u64)
        ensures
            bound == self@.upper_bound,
    {
        self.upper_bound
    }

    /// The number of candidates after which a progress record is due.
    pub fn batch_size(&self) -> (size: u32)
        ensures
            size == self@.batch_size,
    {
        self.batch_size
    }

    /// Whether every candidate within the bound has been examined.
    pub fn is_finished(&self) -> (finished: bool)
        requires
            self.wf(),
        ensures
            finished == self@.finished(),
    {
        self.upper_bound < 5 || self.current > self.upper_bound - 2
    }

    /// The values discovered so far, in increasing order.
    pub fn found(&self) -> (primes: &Vec<u64>)
        requires
            self.wf(),
        ensures
            primes@ == self@.found(),
    {
        &self.primes
    }

    /// Examines the next candidate and records it if it is prime.
    pub fn examine_next(&mut self)
        requires
            old(self).wf(),
            !old(self)@.finished(),
        ensures
            final(self).wf(),
            final(self)@ == old(self)@.next(),
    {
        let candidate: u64 = self.current + 2;
        let prime = is_prime(candidate);
        proof {
            let before = (candidate - 2) as nat;
            assert(smaller(before, self.upper_bound as nat) == before);
            assert(!is_prime_number((candidate - 1) as nat)) by {
                lemma_even_not_prime((candidate - 1) as nat);
            }
            assert(primes_up_to((candidate - 1) as nat) == primes_up_to(before));
            assert(smaller(candidate as nat, self.upper_bound as nat) == candidate);
        }
        if prime {
            self.primes.push(candidate);
        }
        self.current = candidate;
        self.numbers_checked = self.numbers_checked + 1;
    }

    /// The progress record of the present state, with the elapsed time and
    /// the memory in use as given.
    pub fn progress(&self, elapsed_ms: u64, memory: u64) -> (record: PrimeProgress)
        requires
            self.wf(),
        ensures
            record == self@.progress(elapsed_ms, memory),
            record.percentage_complete <= 100,
    {
        PrimeProgress {
            current_number: self.current,
            found_primes: ((self.primes.len() as u64) % 0x1_0000_0000) as u32,
            percentage_complete: percentage(self.current, self.upper_bound),
            current_memory_usage: memory,
            elapsed_time_ms: elapsed_ms,
        }
    }

    /// The result record of the present state, with the total time and the
    /// memory in use as given.
    pub fn completion(&self, total_ns: u128, memory: u64) -> (metrics: PrimeCalculationMetrics)
        requires
            self.wf(),
        ensures
            metrics@ == self@.metrics(total_ns, memory),
    {
        let primes = self.primes.clone();
        assert(primes@ =~= self.primes@);
        let average: u64 = if self.numbers_checked == 0 {
            0
        } else {
            low_u64(total_ns / (self.numbers_checked as u128))
        };
        PrimeCalculationMetrics {
            primes,
            found_primes: ((self.primes.len() as u64) % 0x1_0000_0000) as u32,
            total_time_ms: millis_of(total_ns),
            max_memory_bytes: memory,
            numbers_checked: self.numbers_checked,
            average_check_time_ns: average,
        }
    }

    /// Runs the enumeration until a progress record is due or no candidate
    /// is left. A batch threshold of 0 makes it fail at once.
    ///
    /// The record is due when the count of examined candidates reaches a
    /// multiple of the batch threshold, or when the interval has passed
    /// since this run began, whichever comes first.
    pub fn calculate(&mut self) -> (step: CalculationStep)
        requires
            old(self).wf(),
        ensures
            final(self).wf(),
            old(self)@.batch_size == 0 ==> {
                &&& final(self)@ == old(self)@
                &&& step matches CalculationStep::Failed(reason)
                &&& reason@ == invalid_batch_reason()
            },
            old(self)@.batch_size > 0 ==> run_outcome(old(self)@, final(self)@, step),
            step matches CalculationStep::Completed(metrics) ==> metrics@.primes == primes_up_to(
                old(self)@.upper_bound as nat,
            ),
    {
        if self.batch_size == 0 {
            return CalculationStep::Failed("batch size must be positive".to_string());
        }
        let ghost before = self@;
        let last_emit = std::time::Instant::now();
        while !self.is_finished()
            invariant
                self.wf(),
                before == old(self)@,
                before.valid(),
                self@.upper_bound == before.upper_bound,
                self@.batch_size == before.batch_size,
                before.batch_size > 0,
                before.current <= self@.current,
                no_batch_boundary(
                    before.numbers_checked(),
                    self@.numbers_checked(),
                    before.batch_size,
                ),
            decreases self@.remaining(),
        {
            self.examine_next();
            let since_ms = millis_of(last_emit.elapsed().as_nanos());
            if emission_due(self.numbers_checked, self.batch_size, since_ms) {
                let elapsed_ms = millis_of(self.started.elapsed().as_nanos());
                let memory = memory_bytes(vec_capacity(&self.primes));
                return CalculationStep::Progress(self.progress(elapsed_ms, memory));
            }
        }
        let total_ns: u128 = self.started.elapsed().as_nanos();
        let memory = memory_bytes(vec_capacity(&self.primes));
        let metrics = self.completion(total_ns, memory);
        proof {
            assert(self@.has_result(metrics@)) by {
                assert(metrics@ == self@.metrics(total_ns, metrics@.max_memory_bytes));
            }
            lemma_finished_found_all(self@);
        }
        CalculationStep::Completed(metrics)
    }
}

} // verus!
