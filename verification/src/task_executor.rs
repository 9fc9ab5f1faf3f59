//! The registry of tasks: for each task identifier the present state.
//!
//! A task starts as running, takes any number of progress updates and ends
//! once, in success or failure. What arrives for a task that has ended is
//! discarded.

use std::collections::HashMap;
use vstd::prelude::*;
use crate::task_state::{
    TaskCompletion,
    TaskCompletionView,
    TaskError,
    TaskErrorKind,
    TaskProgress,
    TaskProgressView,
    TaskState,
    TaskStateView,
};

verus! {

broadcast use vstd::std_specs::hash::group_hash_axioms;

/// The registry as mathematics: a finite map from identifier to state.
pub type Registry = Map<u128, TaskStateView>;

/// The contents of a map of task states.
pub open spec fn states_view(tasks: Map<u128, TaskState>) -> Registry {
    tasks.map_values(|state: TaskState| state@)
}

/// The task is registered and has not ended.
pub open spec fn is_running(tasks: Registry, task_id: u128) -> bool {
    tasks.contains_key(task_id) && tasks[task_id] is Running
}

/// The task is registered and has ended.
pub open spec fn is_terminal(tasks: Registry, task_id: u128) -> bool {
    tasks.contains_key(task_id) && tasks[task_id].is_terminal()
}

/// The registry after a registration: a new identifier starts as running,
/// a known one leaves the registry as it was.
pub open spec fn registered(tasks: Registry, task_id: u128, progress: TaskProgressView) -> Registry {
    if tasks.contains_key(task_id) {
        tasks
    } else {
        tasks.insert(task_id, TaskStateView::Running(progress))
    }
}

/// The registry after a progress update: it replaces the progress of a
/// running task, and nothing else.
pub open spec fn progressed(tasks: Registry, task_id: u128, progress: TaskProgressView) -> Registry {
    if is_running(tasks, task_id) {
        tasks.insert(task_id, TaskStateView::Running(progress))
    } else {
        tasks
    }
}

/// The registry after a result was stored: it completes a running task, and
/// nothing else.
pub open spec fn completed(tasks: Registry, task_id: u128, completion: TaskCompletionView) -> Registry {
    if is_running(tasks, task_id) {
        tasks.insert(task_id, TaskStateView::Completed(completion))
    } else {
        tasks
    }
}

/// The registry after a failure was stored: it fails a running task, and
/// nothing else.
pub open spec fn failed(tasks: Registry, task_id: u128, reason: Seq<char>) -> Registry {
    if is_running(tasks, task_id) {
        tasks.insert(task_id, TaskStateView::Failed(reason))
    } else {
        tasks
    }
}

/// What became of a progress update for a registered task.
#[derive(Debug, Clone, Copy, PartialEq, Eq, Structural)]
pub enum ProgressUpdate {
    /// The task was running: the update is its present state.
    Applied,
    /// The task had ended: the update was discarded.
    Ignored,
}

/// The store of the present state of every task.
pub struct TaskExecutor {
    tasks: HashMap<u128, TaskState>,
}

impl View for TaskExecutor {
    type V = Registry;

    closed spec fn view(&self) -> Registry {
        states_view(self.tasks@)
    }
}

impl TaskExecutor {
    /// A registry without tasks.
    pub fn new() -> (executor: TaskExecutor)
        ensures
            executor@ == Map::<u128, TaskStateView>::empty(),
    {
        let executor = TaskExecutor { tasks: HashMap::new() };
        assert(executor@ =~= Map::<u128, TaskStateView>::empty());
        executor
    }

    /// Registers a new task as running with `task_progress`. An identifier
    /// that is registered already is refused, and its entry stays.
    pub fn register_task(&mut self, task_id: u128, task_progress: TaskProgress) -> (result: Result<
        (),
        TaskError,
    >)
        ensures
            final(self)@ == registered(old(self)@, task_id, task_progress@),
            result == if old(self)@.contains_key(task_id) {
                Err::<(), TaskError>(TaskError { kind: TaskErrorKind::DuplicateTask, task_id })
            } else {
                Ok(())
            },
    {
        if self.tasks.contains_key(&task_id) {
            return Err(TaskError { kind: TaskErrorKind::DuplicateTask, task_id });
        }
        self.tasks.insert(task_id, TaskState::Running(task_progress));
        assert(self@ =~= registered(old(self)@, task_id, task_progress@));
        Ok(())
    }

    /// Makes `task_progress` the present state of a running task. For a task
    /// that has ended the update is discarded; an unknown identifier is
    /// refused.
    pub fn update_progress(&mut self, task_id: u128, task_progress: TaskProgress) -> (result:
        Result<ProgressUpdate, TaskError>)
        ensures
            final(self)@ == progressed(old(self)@, task_id, task_progress@),
            result == if !old(self)@.contains_key(task_id) {
                Err::<ProgressUpdate, TaskError>(
                    TaskError { kind: TaskErrorKind::TaskNotFound, task_id },
                )
            } else if old(self)@[task_id] is Running {
                Ok(ProgressUpdate::Applied)
            } else {
                Ok(ProgressUpdate::Ignored)
            },
    {
        let running = match self.tasks.get(&task_id) {
            None => {
                return Err(TaskError { kind: TaskErrorKind::TaskNotFound, task_id });
            },
            Some(state) => !state.is_terminal(),
        };
        if !running {
            return Ok(ProgressUpdate::Ignored);
        }
        self.tasks.insert(task_id, TaskState::Running(task_progress));
        assert(self@ =~= progressed(old(self)@, task_id, task_progress@));
        Ok(ProgressUpdate::Applied)
    }

    /// Ends a running task in success, with `task_completion` as its state.
    /// For a task that has ended already the result is discarded; an unknown
    /// identifier is refused.
    pub fn store_result(&mut self, task_id: u128, task_completion: TaskCompletion) -> (result:
        Result<(), TaskError>)
        ensures
            final(self)@ == completed(old(self)@, task_id, task_completion@),
            result == if old(self)@.contains_key(task_id) {
                Ok::<(), TaskError>(())
            } else {
                Err(TaskError { kind: TaskErrorKind::TaskNotFound, task_id })
            },
    {
        let running = match self.tasks.get(&task_id) {
            None => {
                return Err(TaskError { kind: TaskErrorKind::TaskNotFound, task_id });
            },
            Some(state) => !state.is_terminal(),
        };
        if running {
            self.tasks.insert(task_id, TaskState::Completed(task_completion));
            assert(self@ =~= completed(old(self)@, task_id, task_completion@));
        }
        Ok(())
    }

    /// Ends a running task in failure, with `message` as the reason. For a
    /// task that has ended already the failure is discarded; an unknown
    /// identifier is refused.
    pub fn store_failure(&mut self, task_id: u128, message: String) -> (result: Result<
        (),
        TaskError,
    >)
        ensures
            final(self)@ == failed(old(self)@, task_id, message@),
            result == if old(self)@.contains_key(task_id) {
                Ok::<(), TaskError>(())
            } else {
                Err(TaskError { kind: TaskErrorKind::TaskNotFound, task_id })
            },
    {
        let running = match self.tasks.get(&task_id) {
            None => {
                return Err(TaskError { kind: TaskErrorKind::TaskNotFound, task_id });
            },
            Some(state) => !state.is_terminal(),
        };
        if running {
            self.tasks.insert(task_id, TaskState::Failed(message));
            assert(self@ =~= failed(old(self)@, task_id, message@));
        }
        Ok(())
    }

    /// The present state of one task; an unknown identifier is refused.
    pub fn get(&self, task_id: u128) -> (result: Result<&TaskState, TaskError>)
        ensures
            match result {
                Ok(state) => self@.contains_key(task_id) && state@ == self@[task_id],
                Err(error) => !self@.contains_key(task_id) && error == (TaskError {
                    kind: TaskErrorKind::TaskNotFound,
                    task_id,
                }),
            },
    {
        match self.tasks.get(&task_id) {
            Some(state) => Ok(state),
            None => Err(TaskError { kind: TaskErrorKind::TaskNotFound, task_id }),
        }
    }

    /// A copy of the whole registry as it stands: every task with its
    /// present state.
    pub fn get_all_tasks(&self) -> (snapshot: HashMap<u128, TaskState>)
        ensures
            states_view(snapshot@) == self@,
            snapshot@.dom() == self@.dom(),
            snapshot@.len() == self@.len(),
            forall|task_id: u128| #[trigger]
                snapshot@.contains_key(task_id) ==> snapshot@[task_id]@ == self@[task_id],
    {
        let snapshot = self.tasks.clone();
        assert(snapshot@.dom() =~= self@.dom());
        snapshot
    }

    /// The number of tasks in the registry.
    pub fn len(&self) -> (count: usize)
        ensures
            count == self@.len(),
            self@.dom().finite(),
    {
        assert(self.tasks@.dom() =~= self@.dom());
        self.tasks.len()
    }
}

} // verus!
