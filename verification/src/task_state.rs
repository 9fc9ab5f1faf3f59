//! The lifecycle state of a task and the records it carries.

use vstd::prelude::*;
use crate::prime_calculation::{PrimeCalculationMetrics, PrimeCalculationMetricsView, PrimeProgress};
use crate::visualisation::{frames_view, VisualisationFrame, VisualisationFrameView};

verus! {

/// The progress data of a running task, by kind of computation.
#[derive(Debug, Clone, Copy, PartialEq, Eq)]
pub enum ProgressMetrics {
    PrimeCalculationMetrics(PrimeProgress),
}

/// The result data of a completed task, by kind of computation.
#[derive(Debug, Clone, PartialEq, Eq)]
pub enum CompletedMetrics {
    PrimeCalculationMetrics(PrimeCalculationMetrics),
}

/// The mathematical content of a `CompletedMetrics`.
pub ghost enum CompletedMetricsView {
    PrimeCalculationMetrics(PrimeCalculationMetricsView),
}

impl View for CompletedMetrics {
    type V = CompletedMetricsView;

    open spec fn view(&self) -> CompletedMetricsView {
        match self {
            CompletedMetrics::PrimeCalculationMetrics(metrics) => {
                CompletedMetricsView::PrimeCalculationMetrics(metrics@)
            },
        }
    }
}

/// One point-in-time update of a running task. The timestamp is in seconds
/// since the epoch.
#[derive(Debug, Clone, PartialEq, Eq)]
pub struct TaskProgress {
    pub metrics: ProgressMetrics,
    pub visualisation: Option<Vec<VisualisationFrame>>,
    pub timestamp: u64,
}

/// The mathematical content of a `TaskProgress`.
pub ghost struct TaskProgressView {
    pub metrics: ProgressMetrics,
    pub visualisation: Option<Seq<VisualisationFrameView>>,
    pub timestamp: u64,
}

impl View for TaskProgress {
    type V = TaskProgressView;

    open spec fn view(&self) -> TaskProgressView {
        TaskProgressView {
            metrics: self.metrics,
            visualisation: match self.visualisation {
                Some(frames) => Some(frames_view(frames@)),
                None => None,
            },
            timestamp: self.timestamp,
        }
    }
}

impl TaskProgressView {
    /// A progress record without frames.
    pub open spec fn plain(record: PrimeProgress, timestamp: u64) -> TaskProgressView {
        TaskProgressView {
            metrics: ProgressMetrics::PrimeCalculationMetrics(record),
            visualisation: None,
            timestamp,
        }
    }

    /// The update of a task that has just been created: all figures zero.
    pub open spec fn zeroed() -> TaskProgressView {
        Self::plain(PrimeProgress::spec_zeroed(), 0)
    }
}

impl TaskProgress {
    /// A progress record without frames.
    pub fn plain(record: PrimeProgress, timestamp: u64) -> (progress: TaskProgress)
        ensures
            progress@ == TaskProgressView::plain(record, timestamp),
    {
        TaskProgress {
            metrics: ProgressMetrics::PrimeCalculationMetrics(record),
            visualisation: None,
            timestamp,
        }
    }

    /// The update of a task that has just been created: all figures zero.
    pub fn zeroed() -> (progress: TaskProgress)
        ensures
            progress@ == TaskProgressView::zeroed(),
    {
        Self::plain(PrimeProgress::zeroed(), 0)
    }
}

/// The single terminal success record of a task.
#[derive(Debug, Clone, PartialEq, Eq)]
pub struct TaskCompletion {
    pub metrics: CompletedMetrics,
    pub visualisation: Vec<VisualisationFrame>,
    pub timestamp: u64,
}

/// The mathematical content of a `TaskCompletion`.
pub ghost struct TaskCompletionView {
    pub metrics: CompletedMetricsView,
    pub visualisation: Seq<VisualisationFrameView>,
    pub timestamp: u64,
}

impl View for TaskCompletion {
    type V = TaskCompletionView;

    open spec fn view(&self) -> TaskCompletionView {
        TaskCompletionView {
            metrics: self.metrics@,
            visualisation: frames_view(self.visualisation@),
            timestamp: self.timestamp,
        }
    }
}

impl TaskCompletionView {
    /// A completion record without frames.
    pub open spec fn plain(metrics: PrimeCalculationMetricsView, timestamp: u64) -> TaskCompletionView {
        TaskCompletionView {
            metrics: CompletedMetricsView::PrimeCalculationMetrics(metrics),
            visualisation: Seq::empty(),
            timestamp,
        }
    }
}

impl TaskCompletion {
    /// A completion record without frames.
    pub fn plain(metrics: PrimeCalculationMetrics, timestamp: u64) -> (completion: TaskCompletion)
        ensures
            completion@ == TaskCompletionView::plain(metrics@, timestamp),
    {
        let completion = TaskCompletion {
            metrics: CompletedMetrics::PrimeCalculationMetrics(metrics),
            visualisation: Vec::new(),
            timestamp,
        };
        assert(frames_view(completion.visualisation@) =~= Seq::empty());
        completion
    }
}

/// Where a task stands: running with its latest progress, or ended in
/// success or failure.
#[derive(Debug, Clone, PartialEq, Eq)]
pub enum TaskState {
    Running(TaskProgress),
    Completed(TaskCompletion),
    Failed(String),
}

/// The mathematical content of a `TaskState`.
pub ghost enum TaskStateView {
    Running(TaskProgressView),
    Completed(TaskCompletionView),
    Failed(Seq<char>),
}

impl View for TaskState {
    type V = TaskStateView;

    open spec fn view(&self) -> TaskStateView {
        match self {
            TaskState::Running(progress) => TaskStateView::Running(progress@),
            TaskState::Completed(completion) => TaskStateView::Completed(completion@),
            TaskState::Failed(reason) => TaskStateView::Failed(reason@),
        }
    }
}

impl TaskStateView {
    /// The task has ended: no later write changes its state.
    pub open spec fn is_terminal(self) -> bool {
        self is Completed || self is Failed
    }
}

impl TaskState {
    /// Whether the task has ended, in success or failure.
    pub fn is_terminal(&self) -> (terminal: bool)
        ensures
            terminal == self@.is_terminal(),
    {
        match self {
            TaskState::Running(_) => false,
            TaskState::Completed(_) => true,
            TaskState::Failed(_) => true,
        }
    }
}

/// What went wrong in the registry.
#[derive(Debug, Clone, Copy, PartialEq, Eq, Structural)]
pub enum TaskErrorKind {
    /// A task with this identifier is registered already.
    DuplicateTask,
    /// No task with this identifier is registered.
    TaskNotFound,
}

/// A refused registry operation: what went wrong, and for which task.
#[derive(Debug, Clone, Copy, PartialEq, Eq, Structural)]
pub struct TaskError {
    pub kind: TaskErrorKind,
    pub task_id: u128,
}

impl TaskError {
    /// The error in words.
    pub open spec fn spec_message(&self) -> Seq<char> {
        match self.kind {
            TaskErrorKind::DuplicateTask => "task is already registered"@,
            TaskErrorKind::TaskNotFound => "task not found"@,
        }
    }

    /// The error in words.
    pub fn message(&self) -> (text: String)
        ensures
            text@ == self.spec_message(),
    {
        match self.kind {
            TaskErrorKind::DuplicateTask => "task is already registered".to_string(),
            TaskErrorKind::TaskNotFound => "task not found".to_string(),
        }
    }
}

/// What a submission answers: the identifier of the new task in its text
/// form, and the state in which the task starts.
#[derive(Debug, Clone, PartialEq, Eq)]
pub struct TaskResponse {
    pub task_id: String,
    pub state: TaskState,
}

/// The mathematical content of a `TaskResponse`.
pub ghost struct TaskResponseView {
    pub task_id: Seq<char>,
    pub state: TaskStateView,
}

impl View for TaskResponse {
    type V = TaskResponseView;

    open spec fn view(&self) -> TaskResponseView {
        TaskResponseView { task_id: self.task_id@, state: self.state@ }
    }
}

} // verus!
