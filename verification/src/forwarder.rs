//! The relay that applies what a running computation reports to the
//! registry: each progress record as the task's present state, and the one
//! terminal outcome as its last.

use vstd::prelude::*;
use crate::prime_calculation::{PrimeCalculationMetrics, PrimeCalculationMetricsView, PrimeProgress};
use crate::task_executor::{completed, failed, progressed, Registry, TaskExecutor};
use crate::task_state::{TaskCompletion, TaskCompletionView, TaskProgress, TaskProgressView};

verus! {

/// What reaches the forwarder from the computation.
#[derive(Debug, Clone, PartialEq, Eq)]
pub enum RunnerEvent {
    /// A progress record.
    Progress(PrimeProgress),
    /// The computation has ended with this result.
    Completed(PrimeCalculationMetrics),
    /// The computation could not proceed, for this reason.
    Failed(String),
    /// The computation is gone without having reported an outcome.
    ChannelClosed,
}

/// The mathematical content of a `RunnerEvent`.
pub ghost enum RunnerEventView {
    Progress(PrimeProgress),
    Completed(PrimeCalculationMetricsView),
    Failed(Seq<char>),
    ChannelClosed,
}

impl View for RunnerEvent {
    type V = RunnerEventView;

    open spec fn view(&self) -> RunnerEventView {
        match self {
            RunnerEvent::Progress(record) => RunnerEventView::Progress(*record),
            RunnerEvent::Completed(metrics) => RunnerEventView::Completed(metrics@),
            RunnerEvent::Failed(reason) => RunnerEventView::Failed(reason@),
            RunnerEvent::ChannelClosed => RunnerEventView::ChannelClosed,
        }
    }
}

/// What the caller of the forwarder does next.
#[derive(Debug, Clone, Copy, PartialEq, Eq, Structural)]
pub enum ForwarderAction {
    /// Wait for the next event.
    Continue,
    /// The task has its terminal state: stop relaying.
    Stop,
}

/// The reason recorded for a task whose computation is gone without an
/// outcome.
pub open spec fn channel_closed_reason() -> Seq<char> {
    "progress channel closed before the task ended"@
}

/// The forwarder of one task as mathematics.
pub ghost struct ForwarderView {
    pub task_id: u128,
    pub terminated: bool,
}

impl ForwarderView {
    /// The forwarder of a task that has just been created.
    pub open spec fn fresh(task_id: u128) -> ForwarderView {
        ForwarderView { task_id, terminated: false }
    }

    /// The registry after the forwarder has handled `event` at the time
    /// `timestamp`. Once the terminal outcome has been issued nothing more
    /// is written.
    pub open spec fn relayed(self, tasks: Registry, event: RunnerEventView, timestamp: u64) -> Registry {
        if self.terminated {
            tasks
        } else {
            match event {
                RunnerEventView::Progress(record) => progressed(
                    tasks,
                    self.task_id,
                    TaskProgressView::plain(record, timestamp),
                ),
                RunnerEventView::Completed(metrics) => completed(
                    tasks,
                    self.task_id,
                    TaskCompletionView::plain(metrics, timestamp),
                ),
                RunnerEventView::Failed(reason) => failed(tasks, self.task_id, reason),
                RunnerEventView::ChannelClosed => failed(
                    tasks,
                    self.task_id,
                    channel_closed_reason(),
                ),
            }
        }
    }

    /// The forwarder after `event`: every event but a progress record ends
    /// the relay.
    pub open spec fn after(self, event: RunnerEventView) -> ForwarderView {
        ForwarderView {
            task_id: self.task_id,
            terminated: self.terminated || !(event is Progress),
        }
    }

    /// What the caller does next.
    pub open spec fn action(self) -> ForwarderAction {
        if self.terminated {
            ForwarderAction::Stop
        } else {
            ForwarderAction::Continue
        }
    }
}

/// The relay of one task. It issues the terminal write once and discards
/// what arrives after it.
#[derive(Debug)]
pub struct ProgressForwarder {
    task_id: u128,
    terminated: bool,
}

impl View for ProgressForwarder {
    type V = ForwarderView;

    closed spec fn view(&self) -> ForwarderView {
        ForwarderView { task_id: self.task_id, terminated: self.terminated }
    }
}

impl ProgressForwarder {
    /// The forwarder of the task `task_id`, before any event.
    pub fn new(task_id: u128) -> (forwarder: ProgressForwarder)
        ensures
            forwarder@ == ForwarderView::fresh(task_id),
    {
        ProgressForwarder { task_id, terminated: false }
    }

    /// The task whose events are relayed.
    pub fn task_id(&self) -> (task_id: u128)
        ensures
            task_id == self@.task_id,
    {
        self.task_id
    }

    /// Whether the terminal outcome has been issued.
    pub fn is_terminated(&self) -> (terminated: bool)
        ensures
            terminated == self@.terminated,
    {
        self.terminated
    }

    /// Applies `event`, which arrived at the time `timestamp` (seconds
    /// since the epoch), to the registry, and says whether to go on.
    ///
    /// A task that the registry does not know, or that has ended there,
    /// leaves the registry unchanged.
    pub fn handle(&mut self, executor: &mut TaskExecutor, event: RunnerEvent, timestamp: u64) -> (action:
        ForwarderAction)
        ensures
            final(executor)@ == old(self)@.relayed(old(executor)@, event@, timestamp),
            final(self)@ == old(self)@.after(event@),
            action == final(self)@.action(),
    {
        if self.terminated {
            return ForwarderAction::Stop;
        }
        match event {
            RunnerEvent::Progress(record) => {
                let _ = executor.update_progress(self.task_id, TaskProgress::plain(record, timestamp));
                ForwarderAction::Continue
            },
            RunnerEvent::Completed(metrics) => {
                let _ = executor.store_result(self.task_id, TaskCompletion::plain(metrics, timestamp));
                self.terminated = true;
                ForwarderAction::Stop
            },
            RunnerEvent::Failed(reason) => {
                let _ = executor.store_failure(self.task_id, reason);
                self.terminated = true;
                ForwarderAction::Stop
            },
            RunnerEvent::ChannelClosed => {
                let _ = executor.store_failure(
                    self.task_id,
                    "progress channel closed before the task ended".to_string(),
                );
                self.terminated = true;
                ForwarderAction::Stop
            },
        }
    }
}

} // verus!
