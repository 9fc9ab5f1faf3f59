//! The submission of a prime enumeration: the new task is registered as
//! running and handed back with what its runner and its forwarder need.

use vstd::prelude::*;
use crate::calculator::{invalid_batch_reason, CalculatorView, PrimeCalculator};
use crate::forwarder::{ForwarderView, ProgressForwarder};
use crate::prime_calculation::PrimeCalculationRequest;
use crate::requests::{ApiError, ApiErrorView};
use crate::task_executor::{Registry, TaskExecutor};
use crate::task_id::{format_task_id, is_random_id, new_task_id, task_id_text};
use crate::task_state::{
    TaskError,
    TaskErrorKind,
    TaskProgress,
    TaskProgressView,
    TaskResponse,
    TaskResponseView,
    TaskState,
    TaskStateView,
};

verus! {

/// The number of progress records that may wait between a computation and
/// its forwarder.
pub const PROGRESS_CHANNEL_CAPACITY: usize = 32;

/// A task that has been registered: the answer for the caller, the
/// computation to run and the forwarder that relays its reports.
#[derive(Debug)]
pub struct PrimeTask {
    pub task_id: u128,
    pub response: TaskResponse,
    pub calculator: PrimeCalculator,
    pub forwarder: ProgressForwarder,
}

/// The answer for a new task: its identifier in text form, running with all
/// figures zero.
pub open spec fn initial_response(task_id: u128) -> TaskResponseView {
    TaskResponseView {
        task_id: task_id_text(task_id),
        state: TaskStateView::Running(TaskProgressView::zeroed()),
    }
}

/// The task is registered and runs with all figures zero: what a query
/// finds right after a submission.
pub open spec fn is_started(tasks: Registry, task_id: u128) -> bool {
    tasks.contains_key(task_id) && tasks[task_id] == TaskStateView::Running(
        TaskProgressView::zeroed(),
    )
}

/// A request can be computed unless it names a batch threshold of 0.
pub open spec fn is_valid_request(input: PrimeCalculationRequest) -> bool {
    input.batch_size != Some(0u32)
}

/// What the submission of `input` under the identifier `task_id` does to
/// the registry and answers.
///
/// A request that cannot be computed and an identifier that is registered
/// already are refused, and the registry stays as it was. Otherwise the
/// task is registered as running with all figures zero, and the answer
/// holds a calculator and a forwarder that have not begun.
pub open spec fn submission(
    before: Registry,
    after: Registry,
    task_id: u128,
    input: PrimeCalculationRequest,
    result: Result<PrimeTask, ApiError>,
) -> bool {
    if !is_valid_request(input) {
        &&& after == before
        &&& result matches Err(error)
        &&& error@ == ApiErrorView::InvalidInput(invalid_batch_reason())
    } else if before.contains_key(task_id) {
        &&& after == before
        &&& result matches Err(error)
        &&& error@ == ApiErrorView::TaskCreationFailed(
            (TaskError { kind: TaskErrorKind::DuplicateTask, task_id }).spec_message(),
        )
    } else {
        &&& after == before.insert(task_id, TaskStateView::Running(TaskProgressView::zeroed()))
        &&& result matches Ok(task)
        &&& task.task_id == task_id
        &&& task.response@ == initial_response(task_id)
        &&& task.calculator.wf()
        &&& task.calculator@ == CalculatorView::initial(
            input.upper_bound,
            input.spec_effective_batch_size(),
        )
        &&& task.forwarder@ == ForwarderView::fresh(task_id)
    }
}

/// Submits `input` as the task `task_id`.
pub fn submit_prime_task(
    executor: &mut TaskExecutor,
    task_id: u128,
    input: &PrimeCalculationRequest,
) -> (result: Result<PrimeTask, ApiError>)
    ensures
        submission(old(executor)@, final(executor)@, task_id, *input, result),
        result is Ok <==> is_valid_request(*input) && !old(executor)@.contains_key(task_id),
        result is Ok ==> is_started(final(executor)@, task_id),
{
    let batch_size = input.effective_batch_size();
    if batch_size == 0 {
        return Err(ApiError::InvalidInput("batch size must be positive".to_string()));
    }
    match executor.register_task(task_id, TaskProgress::zeroed()) {
        Err(error) => Err(ApiError::TaskCreationFailed(error.message())),
        Ok(()) => {
            let response = TaskResponse {
                task_id: format_task_id(task_id),
                state: TaskState::Running(TaskProgress::zeroed()),
            };
            Ok(
                PrimeTask {
                    task_id,
                    response,
                    calculator: PrimeCalculator::new(input.upper_bound, batch_size),
                    forwarder: ProgressForwarder::new(task_id),
                },
            )
        },
    }
}

/// Submits `input` as a new task under an identifier drawn at random.
///
/// Whatever identifier was drawn, the submission is that of
/// `submit_prime_task` under it.
pub fn create_prime_task(executor: &mut TaskExecutor, input: &PrimeCalculationRequest) -> (result:
    Result<PrimeTask, ApiError>)
    ensures
        exists|task_id: u128|
            is_random_id(task_id) && #[trigger] submission(
                old(executor)@,
                final(executor)@,
                task_id,
                *input,
                result,
            ),
        !is_valid_request(*input) ==> result is Err,
        result is Err ==> final(executor)@ == old(executor)@,
        result matches Ok(task) ==> !old(executor)@.contains_key(task.task_id) && is_started(
            final(executor)@,
            task.task_id,
        ),
{
    let task_id = new_task_id();
    submit_prime_task(executor, task_id, input)
}

} // verus!
