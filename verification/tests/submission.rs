use task_runner::calculator::CalculationStep;
use task_runner::forwarder::{ForwarderAction, ProgressForwarder, RunnerEvent};
use task_runner::handler::{create_prime_task, submit_prime_task, PROGRESS_CHANNEL_CAPACITY};
use task_runner::prime_calculation::{
    PrimeCalculationMetrics, PrimeCalculationRequest, PrimeProgress, DEFAULT_BATCH_SIZE,
};
use task_runner::requests::{ApiError, StatusCode};
use task_runner::say_hello;
use task_runner::task_executor::TaskExecutor;
use task_runner::task_state::{CompletedMetrics, TaskCompletion, TaskProgress, TaskState};

fn request(upper_bound: u64, batch_size: Option<u32>) -> PrimeCalculationRequest {
    PrimeCalculationRequest { upper_bound, batch_size }
}

fn record(number: u64) -> PrimeProgress {
    PrimeProgress {
        current_number: number,
        found_primes: 2,
        percentage_complete: 50,
        current_memory_usage: 32,
        elapsed_time_ms: 1,
    }
}

fn metrics() -> PrimeCalculationMetrics {
    PrimeCalculationMetrics {
        primes: vec![2, 3, 5, 7],
        found_primes: 4,
        total_time_ms: 1,
        max_memory_bytes: 32,
        numbers_checked: 3,
        average_check_time_ns: 10,
    }
}

#[test]
fn hello_is_fixed() {
    assert_eq!(say_hello(), "Hello, world!");
}

#[test]
fn the_batch_size_defaults_to_ten_thousand() {
    assert_eq!(DEFAULT_BATCH_SIZE, 10000);
    assert_eq!(request(10, None).effective_batch_size(), 10000);
    assert_eq!(request(10, Some(7)).effective_batch_size(), 7);
    assert_eq!(request(10, Some(0)).effective_batch_size(), 0);
}

#[test]
fn the_channel_holds_thirty_two_records() {
    assert_eq!(PROGRESS_CHANNEL_CAPACITY, 32);
}

#[test]
fn a_submitted_task_runs_with_zeroed_progress() {
    let mut executor = TaskExecutor::new();
    let task = submit_prime_task(&mut executor, 42, &request(10, None)).ok().unwrap();
    assert_eq!(task.task_id, 42);
    assert_eq!(executor.get(42), Ok(&TaskState::Running(TaskProgress::zeroed())));
    assert_eq!(task.response.state, TaskState::Running(TaskProgress::zeroed()));
    assert_eq!(task.calculator.upper_bound(), 10);
    assert_eq!(task.calculator.batch_size(), 10000);
    assert_eq!(task.forwarder.task_id(), 42);
    assert!(!task.forwarder.is_terminated());
}

#[test]
fn the_answer_names_the_task_in_hyphenated_hexadecimal() {
    let mut executor = TaskExecutor::new();
    let task_id = 0x0123_4567_89ab_cdef_fedc_ba98_7654_3210u128;
    let task = submit_prime_task(&mut executor, task_id, &request(10, Some(5))).ok().unwrap();
    assert_eq!(task.response.task_id, "01234567-89ab-cdef-fedc-ba9876543210");
    let zero = submit_prime_task(&mut executor, 0, &request(10, Some(5))).ok().unwrap();
    assert_eq!(zero.response.task_id, "00000000-0000-0000-0000-000000000000");
    let small = submit_prime_task(&mut executor, 0x1f, &request(10, Some(5))).ok().unwrap();
    assert_eq!(small.response.task_id, "00000000-0000-0000-0000-00000000001f");
}

#[test]
fn a_batch_size_of_zero_is_invalid_input() {
    let mut executor = TaskExecutor::new();
    let refused = submit_prime_task(&mut executor, 1, &request(10, Some(0))).err().unwrap();
    assert_eq!(refused, ApiError::InvalidInput("batch size must be positive".to_string()));
    assert_eq!(refused.status_code(), StatusCode::BadRequest);
    assert_eq!(executor.len(), 0);
}

#[test]
fn a_known_identifier_is_refused_and_its_task_kept() {
    let mut executor = TaskExecutor::new();
    executor.register_task(1, TaskProgress::plain(record(9), 5)).unwrap();
    let refused = submit_prime_task(&mut executor, 1, &request(10, None)).err().unwrap();
    assert_eq!(refused, ApiError::TaskCreationFailed("task is already registered".to_string()));
    assert_eq!(refused.status_code(), StatusCode::InternalServerError);
    assert_eq!(executor.get(1), Ok(&TaskState::Running(TaskProgress::plain(record(9), 5))));
}

#[test]
fn created_tasks_get_random_identifiers() {
    let mut executor = TaskExecutor::new();
    let first = create_prime_task(&mut executor, &request(10, None)).ok().unwrap();
    let second = create_prime_task(&mut executor, &request(10, None)).ok().unwrap();
    assert_ne!(first.task_id, second.task_id);
    assert_eq!(executor.len(), 2);
    for task in [&first, &second] {
        assert_eq!(executor.get(task.task_id), Ok(&TaskState::Running(TaskProgress::zeroed())));
        let text: Vec<char> = task.response.task_id.chars().collect();
        assert_eq!(text.len(), 36);
        assert_eq!(text[14], '4');
        assert!(matches!(text[19], '8' | '9' | 'a' | 'b'));
        assert_eq!(task.task_id >> 76 & 0xf, 4);
        assert_eq!(task.task_id >> 62 & 0x3, 2);
        assert_eq!(task.response.task_id, format!("{:032x}", task.task_id)
            .chars()
            .enumerate()
            .flat_map(|(i, c)| if matches!(i, 8 | 12 | 16 | 20) { vec!['-', c] } else { vec![c] })
            .collect::<String>());
    }
}

#[test]
fn creation_refuses_invalid_input() {
    let mut executor = TaskExecutor::new();
    let refused = create_prime_task(&mut executor, &request(10, Some(0))).err().unwrap();
    assert_eq!(refused.status_code(), StatusCode::BadRequest);
    assert_eq!(executor.len(), 0);
}

#[test]
fn a_submitted_task_runs_to_its_result() {
    let mut executor = TaskExecutor::new();
    let mut task = submit_prime_task(&mut executor, 7, &request(10, Some(1))).ok().unwrap();
    let mut relayed = 0;
    loop {
        let event = match task.calculator.calculate() {
            CalculationStep::Progress(progress) => RunnerEvent::Progress(progress),
            CalculationStep::Completed(result) => RunnerEvent::Completed(result),
            CalculationStep::Failed(reason) => RunnerEvent::Failed(reason),
        };
        relayed += 1;
        if task.forwarder.handle(&mut executor, event, 1_700_000_000) == ForwarderAction::Stop {
            break;
        }
        assert!(matches!(executor.get(7), Ok(TaskState::Running(_))));
    }
    assert_eq!(relayed, 4);
    assert!(task.forwarder.is_terminated());
    match executor.get(7) {
        Ok(TaskState::Completed(completion)) => {
            assert_eq!(completion.timestamp, 1_700_000_000);
            assert!(completion.visualisation.is_empty());
            match &completion.metrics {
                CompletedMetrics::PrimeCalculationMetrics(metrics) => {
                    assert_eq!(metrics.primes, vec![2, 3, 5, 7]);
                    assert_eq!(metrics.found_primes, 4);
                    assert_eq!(metrics.numbers_checked, 3);
                }
            }
        }
        other => panic!("not completed: {:?}", other),
    }
}

#[test]
fn the_forwarder_relays_progress_with_the_time_of_arrival() {
    let mut executor = TaskExecutor::new();
    executor.register_task(1, TaskProgress::zeroed()).unwrap();
    let mut forwarder = ProgressForwarder::new(1);
    let action = forwarder.handle(&mut executor, RunnerEvent::Progress(record(5)), 77);
    assert_eq!(action, ForwarderAction::Continue);
    assert_eq!(executor.get(1), Ok(&TaskState::Running(TaskProgress::plain(record(5), 77))));
    assert!(!forwarder.is_terminated());
}

#[test]
fn the_forwarder_stores_the_result_once() {
    let mut executor = TaskExecutor::new();
    executor.register_task(1, TaskProgress::zeroed()).unwrap();
    let mut forwarder = ProgressForwarder::new(1);
    assert_eq!(
        forwarder.handle(&mut executor, RunnerEvent::Completed(metrics()), 80),
        ForwarderAction::Stop
    );
    let stored = TaskState::Completed(TaskCompletion::plain(metrics(), 80));
    assert_eq!(executor.get(1), Ok(&stored));
    assert!(forwarder.is_terminated());
    // What is left in the channel is discarded.
    assert_eq!(
        forwarder.handle(&mut executor, RunnerEvent::Progress(record(9)), 81),
        ForwarderAction::Stop
    );
    assert_eq!(
        forwarder.handle(&mut executor, RunnerEvent::Failed("late".to_string()), 82),
        ForwarderAction::Stop
    );
    assert_eq!(executor.get(1), Ok(&stored));
}

#[test]
fn the_forwarder_records_the_reason_of_a_failure() {
    let mut executor = TaskExecutor::new();
    executor.register_task(1, TaskProgress::zeroed()).unwrap();
    let mut forwarder = ProgressForwarder::new(1);
    assert_eq!(
        forwarder.handle(&mut executor, RunnerEvent::Failed("no memory".to_string()), 80),
        ForwarderAction::Stop
    );
    assert_eq!(executor.get(1), Ok(&TaskState::Failed("no memory".to_string())));
    assert_eq!(
        forwarder.handle(&mut executor, RunnerEvent::Completed(metrics()), 81),
        ForwarderAction::Stop
    );
    assert_eq!(executor.get(1), Ok(&TaskState::Failed("no memory".to_string())));
}

#[test]
fn a_closed_channel_is_a_failure() {
    let mut executor = TaskExecutor::new();
    executor.register_task(1, TaskProgress::zeroed()).unwrap();
    let mut forwarder = ProgressForwarder::new(1);
    assert_eq!(
        forwarder.handle(&mut executor, RunnerEvent::ChannelClosed, 80),
        ForwarderAction::Stop
    );
    assert_eq!(
        executor.get(1),
        Ok(&TaskState::Failed("progress channel closed before the task ended".to_string()))
    );
}

#[test]
fn the_forwarder_leaves_other_tasks_alone() {
    let mut executor = TaskExecutor::new();
    executor.register_task(1, TaskProgress::zeroed()).unwrap();
    executor.register_task(2, TaskProgress::zeroed()).unwrap();
    let mut forwarder = ProgressForwarder::new(1);
    forwarder.handle(&mut executor, RunnerEvent::Progress(record(5)), 77);
    forwarder.handle(&mut executor, RunnerEvent::Failed("x".to_string()), 78);
    assert_eq!(executor.get(2), Ok(&TaskState::Running(TaskProgress::zeroed())));
}

#[test]
fn the_forwarder_of_an_unknown_task_writes_nothing() {
    let mut executor = TaskExecutor::new();
    let mut forwarder = ProgressForwarder::new(1);
    assert_eq!(
        forwarder.handle(&mut executor, RunnerEvent::Progress(record(5)), 77),
        ForwarderAction::Continue
    );
    assert_eq!(
        forwarder.handle(&mut executor, RunnerEvent::Completed(metrics()), 78),
        ForwarderAction::Stop
    );
    assert_eq!(executor.len(), 0);
}

#[test]
fn a_failing_computation_ends_its_task_as_failed() {
    let mut executor = TaskExecutor::new();
    executor.register_task(1, TaskProgress::zeroed()).unwrap();
    let mut calculator = task_runner::calculator::PrimeCalculator::new(100, 0);
    let mut forwarder = ProgressForwarder::new(1);
    let event = match calculator.calculate() {
        CalculationStep::Failed(reason) => RunnerEvent::Failed(reason),
        other => panic!("did not fail: {:?}", other),
    };
    forwarder.handle(&mut executor, event, 5);
    assert_eq!(executor.get(1), Ok(&TaskState::Failed("batch size must be positive".to_string())));
}

#[test]
fn refusals_have_a_status() {
    assert_eq!(
        ApiError::TaskCreationFailed("x".to_string()).status_code(),
        StatusCode::InternalServerError
    );
    assert_eq!(ApiError::InvalidInput("x".to_string()).status_code(), StatusCode::BadRequest);
}
