use task_runner::calculator::{
    emission_due, memory_bytes, percentage, CalculationStep, PrimeCalculator,
};
use task_runner::clock::{low_u64, millis_of};
use task_runner::prime_calculation::{PrimeCalculationMetrics, PrimeProgress};

fn run_to_end(calculator: &mut PrimeCalculator) -> (Vec<PrimeProgress>, CalculationStep) {
    let mut records = Vec::new();
    loop {
        match calculator.calculate() {
            CalculationStep::Progress(record) => records.push(record),
            last => return (records, last),
        }
    }
}

fn completed(step: CalculationStep) -> PrimeCalculationMetrics {
    match step {
        CalculationStep::Completed(metrics) => metrics,
        other => panic!("not completed: {:?}", other),
    }
}

#[test]
fn bound_ten_discovers_two_three_five_seven() {
    let mut calculator = PrimeCalculator::new(10, 10000);
    let (_, last) = run_to_end(&mut calculator);
    let metrics = completed(last);
    assert_eq!(metrics.primes, vec![2, 3, 5, 7]);
    assert_eq!(metrics.found_primes, 4);
    assert_eq!(metrics.numbers_checked, 3);
}

#[test]
fn bound_one_discovers_nothing() {
    let mut calculator = PrimeCalculator::new(1, 10000);
    let (records, last) = run_to_end(&mut calculator);
    assert!(records.is_empty());
    let metrics = completed(last);
    assert!(metrics.primes.is_empty());
    assert_eq!(metrics.found_primes, 0);
    assert_eq!(metrics.numbers_checked, 0);
    assert_eq!(metrics.average_check_time_ns, 0);
}

#[test]
fn small_bounds_take_two_and_three_only_within_the_bound() {
    assert_eq!(completed(run_to_end(&mut PrimeCalculator::new(0, 1)).1).primes, Vec::<u64>::new());
    assert_eq!(completed(run_to_end(&mut PrimeCalculator::new(2, 1)).1).primes, vec![2]);
    assert_eq!(completed(run_to_end(&mut PrimeCalculator::new(3, 1)).1).primes, vec![2, 3]);
    assert_eq!(completed(run_to_end(&mut PrimeCalculator::new(4, 1)).1).primes, vec![2, 3]);
    assert_eq!(completed(run_to_end(&mut PrimeCalculator::new(5, 1)).1).primes, vec![2, 3, 5]);
    assert_eq!(completed(run_to_end(&mut PrimeCalculator::new(6, 1)).1).primes, vec![2, 3, 5]);
}

#[test]
fn bound_hundred_discovers_twenty_five_primes() {
    let mut calculator = PrimeCalculator::new(100, 10000);
    let metrics = completed(run_to_end(&mut calculator).1);
    assert_eq!(
        metrics.primes,
        vec![
            2, 3, 5, 7, 11, 13, 17, 19, 23, 29, 31, 37, 41, 43, 47, 53, 59, 61, 67, 71, 73, 79,
            83, 89, 97
        ]
    );
    assert_eq!(metrics.found_primes, 25);
    assert_eq!(metrics.numbers_checked, 48);
    assert!(calculator.is_finished());
    assert_eq!(calculator.found(), &metrics.primes);
}

#[test]
fn the_largest_bound_does_not_overflow() {
    let mut calculator = PrimeCalculator::new(u64::MAX, 1);
    match calculator.calculate() {
        CalculationStep::Progress(record) => {
            assert_eq!(record.current_number, 5);
            assert_eq!(record.found_primes, 3);
            assert_eq!(record.percentage_complete, 0);
        }
        other => panic!("no progress: {:?}", other),
    }
}

#[test]
fn a_record_is_emitted_at_every_batch_boundary() {
    let mut calculator = PrimeCalculator::new(100, 10);
    let (records, last) = run_to_end(&mut calculator);
    // 48 candidates: the records after 10, 20, 30 and 40 of them are owed
    // whatever the clock shows.
    for wanted in [23u64, 43, 63, 83] {
        assert!(records.iter().any(|record| record.current_number == wanted));
    }
    let at_63 = records.iter().find(|record| record.current_number == 63).unwrap();
    assert_eq!(at_63.found_primes, 18);
    assert_eq!(at_63.percentage_complete, 63);
    assert_eq!(completed(last).found_primes, 25);
}

#[test]
fn batch_of_one_reports_every_candidate() {
    let mut calculator = PrimeCalculator::new(11, 1);
    let (records, last) = run_to_end(&mut calculator);
    let numbers: Vec<u64> = records.iter().map(|record| record.current_number).collect();
    assert_eq!(numbers, vec![5, 7, 9, 11]);
    let found: Vec<u32> = records.iter().map(|record| record.found_primes).collect();
    assert_eq!(found, vec![3, 4, 4, 5]);
    let percent: Vec<u8> = records.iter().map(|record| record.percentage_complete).collect();
    assert_eq!(percent, vec![45, 63, 81, 100]);
    assert_eq!(completed(last).primes, vec![2, 3, 5, 7, 11]);
}

#[test]
fn percentage_never_falls_and_stays_within_bounds() {
    let mut calculator = PrimeCalculator::new(5000, 7);
    let (records, _) = run_to_end(&mut calculator);
    assert!(!records.is_empty());
    let mut last = PrimeProgress::zeroed().percentage_complete;
    let mut last_number = 0;
    for record in records {
        assert!(record.percentage_complete >= last);
        assert!(record.percentage_complete <= 100);
        assert!(record.current_number > last_number);
        last = record.percentage_complete;
        last_number = record.current_number;
    }
}

#[test]
fn batch_of_zero_fails_with_a_reason() {
    let mut calculator = PrimeCalculator::new(100, 0);
    assert_eq!(
        calculator.calculate(),
        CalculationStep::Failed("batch size must be positive".to_string())
    );
    assert!(!calculator.is_finished());
}

#[test]
fn a_finished_calculator_completes_again() {
    let mut calculator = PrimeCalculator::new(10, 100);
    let first = completed(calculator.calculate());
    let second = completed(calculator.calculate());
    assert_eq!(first.primes, second.primes);
}

#[test]
fn examine_next_takes_one_candidate() {
    let mut calculator = PrimeCalculator::new(9, 100);
    assert_eq!(calculator.upper_bound(), 9);
    assert_eq!(calculator.batch_size(), 100);
    assert_eq!(calculator.found(), &vec![2, 3]);
    calculator.examine_next();
    assert_eq!(calculator.found(), &vec![2, 3, 5]);
    calculator.examine_next();
    assert_eq!(calculator.found(), &vec![2, 3, 5, 7]);
    assert!(!calculator.is_finished());
    calculator.examine_next();
    assert_eq!(calculator.found(), &vec![2, 3, 5, 7]);
    assert!(calculator.is_finished());
}

#[test]
fn progress_shows_the_state_and_the_readings() {
    let mut calculator = PrimeCalculator::new(20, 100);
    calculator.examine_next();
    calculator.examine_next();
    assert_eq!(
        calculator.progress(12, 64),
        PrimeProgress {
            current_number: 7,
            found_primes: 4,
            percentage_complete: 35,
            current_memory_usage: 64,
            elapsed_time_ms: 12,
        }
    );
}

#[test]
fn completion_derives_the_times_from_the_nanoseconds() {
    let mut calculator = PrimeCalculator::new(10, 100);
    while !calculator.is_finished() {
        calculator.examine_next();
    }
    assert_eq!(
        calculator.completion(7_500_000, 32),
        PrimeCalculationMetrics {
            primes: vec![2, 3, 5, 7],
            found_primes: 4,
            total_time_ms: 7,
            max_memory_bytes: 32,
            numbers_checked: 3,
            average_check_time_ns: 2_500_000,
        }
    );
}

#[test]
fn memory_in_use_covers_the_discovered_values() {
    let mut calculator = PrimeCalculator::new(1000, 1);
    let (records, last) = run_to_end(&mut calculator);
    for record in records {
        assert!(record.current_memory_usage >= 8 * record.found_primes as u64);
        assert_eq!(record.current_memory_usage % 8, 0);
    }
    let metrics = completed(last);
    assert!(metrics.max_memory_bytes >= 8 * 168);
}

#[test]
fn percentage_is_the_whole_share() {
    assert_eq!(percentage(0, 10), 0);
    assert_eq!(percentage(1, 3), 33);
    assert_eq!(percentage(2, 3), 66);
    assert_eq!(percentage(5, 10), 50);
    assert_eq!(percentage(999, 1000), 99);
    assert_eq!(percentage(10, 10), 100);
}

#[test]
fn percentage_is_clamped() {
    assert_eq!(percentage(11, 10), 100);
    assert_eq!(percentage(3, 0), 100);
    assert_eq!(percentage(0, 0), 100);
    assert_eq!(percentage(u64::MAX, 1), 100);
    assert_eq!(percentage(u64::MAX - 1, u64::MAX), 99);
}

#[test]
fn emission_is_due_at_batch_multiples() {
    assert!(emission_due(10, 10, 0));
    assert!(emission_due(20, 10, 0));
    assert!(!emission_due(11, 10, 0));
    assert!(!emission_due(9, 10, 999));
}

#[test]
fn emission_is_due_after_the_interval() {
    assert!(emission_due(11, 10, 1000));
    assert!(emission_due(11, 10, 5000));
    assert!(emission_due(1, 0, 1000));
    assert!(!emission_due(7, 0, 0));
}

#[test]
fn memory_is_eight_bytes_a_value() {
    assert_eq!(memory_bytes(0), 0);
    assert_eq!(memory_bytes(4), 32);
    assert_eq!(memory_bytes(1000), 8000);
    assert_eq!(memory_bytes(usize::MAX), u64::MAX);
}

#[test]
fn milliseconds_round_down() {
    assert_eq!(millis_of(0), 0);
    assert_eq!(millis_of(999_999), 0);
    assert_eq!(millis_of(1_000_000), 1);
    assert_eq!(millis_of(1_234_567_890), 1234);
}

#[test]
fn low_bits_are_kept() {
    assert_eq!(low_u64(5), 5);
    assert_eq!(low_u64(u64::MAX as u128), u64::MAX);
    assert_eq!(low_u64(u64::MAX as u128 + 1), 0);
    assert_eq!(low_u64(u128::MAX), u64::MAX);
}
