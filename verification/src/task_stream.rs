//! The broadcaster: at every tick a subscriber is sent the whole registry
//! as it stands, or a substitute where that could not be encoded.

use std::collections::HashMap;
use vstd::prelude::*;
use crate::task_executor::{states_view, TaskExecutor};
use crate::task_state::TaskState;

verus! {

/// The time between two snapshots of one subscriber, in milliseconds.
pub const STREAM_INTERVAL_MS: u64 = 100;

/// The text sent in place of a snapshot that could not be encoded.
pub open spec fn serialization_fallback() -> Seq<char> {
    "Error serializing tasks"@
}

/// One element of a subscriber's stream.
#[derive(Debug, Clone, PartialEq, Eq)]
pub enum StreamEvent {
    /// The encoded snapshot of the registry.
    Snapshot(String),
    /// The snapshot could not be encoded; the text says so.
    Fallback(String),
}

/// The mathematical content of a `StreamEvent`.
pub ghost enum StreamEventView {
    Snapshot(Seq<char>),
    Fallback(Seq<char>),
}

impl View for StreamEvent {
    type V = StreamEventView;

    open spec fn view(&self) -> StreamEventView {
        match self {
            StreamEvent::Snapshot(data) => StreamEventView::Snapshot(data@),
            StreamEvent::Fallback(data) => StreamEventView::Fallback(data@),
        }
    }
}

impl StreamEventView {
    /// The text that the event carries.
    pub open spec fn data(self) -> Seq<char> {
        match self {
            StreamEventView::Snapshot(data) => data,
            StreamEventView::Fallback(data) => data,
        }
    }
}

impl StreamEvent {
    /// The text that the event carries.
    pub fn data(&self) -> (data: &String)
        ensures
            data@ == self@.data(),
    {
        match self {
            StreamEvent::Snapshot(data) => data,
            StreamEvent::Fallback(data) => data,
        }
    }
}

/// The event for a snapshot whose encoding gave `encoded`: the encoding
/// itself, or the fallback where there is none.
pub open spec fn event_of(encoded: Option<Seq<char>>) -> StreamEventView {
    match encoded {
        Some(data) => StreamEventView::Snapshot(data),
        None => StreamEventView::Fallback(serialization_fallback()),
    }
}

/// The view of one subscriber on the registry. Subscribers share nothing:
/// each polls the registry at its own ticks.
#[derive(Debug, Clone, Copy, PartialEq, Eq)]
pub struct TaskStateStream {
    interval_ms: u64,
}

impl TaskStateStream {
    /// The time between two snapshots, in milliseconds.
    pub closed spec fn spec_interval_ms(&self) -> u64 {
        self.interval_ms
    }

    /// A subscriber's stream at the default cadence.
    pub fn new() -> (stream: TaskStateStream)
        ensures
            stream.spec_interval_ms() == STREAM_INTERVAL_MS,
    {
        TaskStateStream { interval_ms: STREAM_INTERVAL_MS }
    }

    /// The time between two snapshots, in milliseconds.
    pub fn interval_ms(&self) -> (interval: u64)
        ensures
            interval == self.spec_interval_ms(),
    {
        self.interval_ms
    }

    /// What a tick polls: the registry as it stands.
    pub fn snapshot(&self, executor: &TaskExecutor) -> (snapshot: HashMap<u128, TaskState>)
        ensures
            states_view(snapshot@) == executor@,
            snapshot@.dom() == executor@.dom(),
    {
        executor.get_all_tasks()
    }

    /// The stream element for a snapshot, given what its encoding gave.
    /// A failed encoding does not end the stream: it yields the fallback.
    pub fn event(&self, encoded: Option<String>) -> (event: StreamEvent)
        ensures
            event@ == event_of(
                match encoded {
                    Some(data) => Some(data@),
                    None => None,
                },
            ),
    {
        match encoded {
            Some(data) => StreamEvent::Snapshot(data),
            None => StreamEvent::Fallback("Error serializing tasks".to_string()),
        }
    }
}

} // verus!
