//! What holds of the registry under every sequence of writes.

use vstd::prelude::*;
use crate::forwarder::{ForwarderView, RunnerEventView};
use crate::task_executor::{
    completed,
    failed,
    is_running,
    is_terminal,
    progressed,
    registered,
    Registry,
};
use crate::task_state::{TaskCompletionView, TaskProgressView, TaskStateView};

verus! {

/// One write to the registry.
pub ghost enum RegistryWrite {
    Register { task_id: u128, progress: TaskProgressView },
    UpdateProgress { task_id: u128, progress: TaskProgressView },
    StoreResult { task_id: u128, completion: TaskCompletionView },
    StoreFailure { task_id: u128, reason: Seq<char> },
}

/// The registry after one write.
pub open spec fn written(tasks: Registry, write: RegistryWrite) -> Registry {
    match write {
        RegistryWrite::Register { task_id, progress } => registered(tasks, task_id, progress),
        RegistryWrite::UpdateProgress { task_id, progress } => progressed(tasks, task_id, progress),
        RegistryWrite::StoreResult { task_id, completion } => completed(tasks, task_id, completion),
        RegistryWrite::StoreFailure { task_id, reason } => failed(tasks, task_id, reason),
    }
}

/// The registry after a sequence of writes, the first of them first.
pub open spec fn written_all(tasks: Registry, writes: Seq<RegistryWrite>) -> Registry
    decreases writes.len(),
{
    if writes.len() == 0 {
        tasks
    } else {
        written(written_all(tasks, writes.drop_last()), writes.last())
    }
}

/// No write removes a task, and the state of a task that has ended is the
/// same after any write, whichever task the write names.
pub proof fn lemma_terminal_is_final(tasks: Registry, write: RegistryWrite, task_id: u128)
    requires
        is_terminal(tasks, task_id),
    ensures
        is_terminal(written(tasks, write), task_id),
        written(tasks, write)[task_id] == tasks[task_id],
{
}

/// A task that has ended, in success or in failure, keeps its state through
/// every sequence of writes: it never runs again, and a success never
/// becomes a failure nor a failure a success.
pub proof fn lemma_terminal_stays_final(tasks: Registry, writes: Seq<RegistryWrite>, task_id: u128)
    requires
        is_terminal(tasks, task_id),
    ensures
        is_terminal(written_all(tasks, writes), task_id),
        written_all(tasks, writes)[task_id] == tasks[task_id],
    decreases writes.len(),
{
    if writes.len() > 0 {
        lemma_terminal_stays_final(tasks, writes.drop_last(), task_id);
        lemma_terminal_is_final(written_all(tasks, writes.drop_last()), writes.last(), task_id);
    }
}

/// A failed task that later receives a progress record or a result is
/// unaffected: its state is the failure it was.
pub proof fn lemma_failed_task_unaffected(
    tasks: Registry,
    task_id: u128,
    progress: TaskProgressView,
    completion: TaskCompletionView,
)
    requires
        tasks.contains_key(task_id),
        tasks[task_id] is Failed,
    ensures
        progressed(tasks, task_id, progress) == tasks,
        completed(tasks, task_id, completion) == tasks,
{
}

/// Every write keeps the tasks that were registered, so a registered task
/// stays registered through every sequence of writes.
pub proof fn lemma_tasks_are_kept(tasks: Registry, writes: Seq<RegistryWrite>, task_id: u128)
    requires
        tasks.contains_key(task_id),
    ensures
        written_all(tasks, writes).contains_key(task_id),
    decreases writes.len(),
{
    if writes.len() > 0 {
        lemma_tasks_are_kept(tasks, writes.drop_last(), task_id);
    }
}

/// Two registrations under distinct identifiers give the same registry in
/// either order, and both tasks are in it: neither write is lost. A task
/// that was new runs with the progress it was registered with.
pub proof fn lemma_registrations_commute(
    tasks: Registry,
    first: u128,
    first_progress: TaskProgressView,
    second: u128,
    second_progress: TaskProgressView,
)
    requires
        first != second,
    ensures
        registered(registered(tasks, first, first_progress), second, second_progress)
            == registered(registered(tasks, second, second_progress), first, first_progress),
        registered(registered(tasks, first, first_progress), second, second_progress).contains_key(
            first,
        ),
        registered(registered(tasks, first, first_progress), second, second_progress).contains_key(
            second,
        ),
        !tasks.contains_key(first) ==> registered(
            registered(tasks, first, first_progress),
            second,
            second_progress,
        )[first] == TaskStateView::Running(first_progress),
        !tasks.contains_key(second) ==> registered(
            registered(tasks, first, first_progress),
            second,
            second_progress,
        )[second] == TaskStateView::Running(second_progress),
{
    assert(registered(registered(tasks, first, first_progress), second, second_progress)
        =~= registered(registered(tasks, second, second_progress), first, first_progress));
}

/// The terminal outcome of a computation ends its task: once a forwarder
/// that has not issued an outcome handles an event other than a progress
/// record, a task that was running has ended, with exactly the state that
/// the event names.
pub proof fn lemma_outcome_ends_task(
    forwarder: ForwarderView,
    tasks: Registry,
    event: RunnerEventView,
    timestamp: u64,
)
    requires
        !forwarder.terminated,
        !(event is Progress),
        is_running(tasks, forwarder.task_id),
    ensures
        is_terminal(forwarder.relayed(tasks, event, timestamp), forwarder.task_id),
        event is Completed <==> forwarder.relayed(tasks, event, timestamp)[forwarder.task_id]
            is Completed,
        forwarder.after(event).terminated,
{
}

/// Whatever a forwarder handles, a task that has ended keeps its state, and
/// a forwarder that has issued its outcome writes nothing at all.
pub proof fn lemma_relay_respects_terminal(
    forwarder: ForwarderView,
    tasks: Registry,
    event: RunnerEventView,
    timestamp: u64,
    task_id: u128,
)
    ensures
        is_terminal(tasks, task_id) ==> forwarder.relayed(tasks, event, timestamp)[task_id]
            == tasks[task_id] && is_terminal(
            forwarder.relayed(tasks, event, timestamp),
            task_id,
        ),
        forwarder.terminated ==> forwarder.relayed(tasks, event, timestamp) == tasks,
        forwarder.terminated ==> forwarder.after(event).terminated,
{
}

} // verus!
