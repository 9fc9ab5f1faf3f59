//! Background task execution with live progress reporting.
//!
//! A registry tracks the lifecycle of independently running computations,
//! a forwarder relays their progress records into the registry, and a
//! broadcaster turns registry snapshots into stream events.

pub mod calculator;
pub mod clock;
pub mod forwarder;
pub mod handler;
pub mod prime_calculation;
pub mod primes;
pub mod registry_laws;
pub mod requests;
pub mod task_executor;
pub mod task_id;
pub mod task_state;
pub mod task_stream;
pub mod visualisation;
pub mod visualiser;

use vstd::prelude::*;

verus! {

/// The text of the liveness probe.
pub open spec fn greeting() -> Seq<char> {
    "Hello, world!"@
}

/// Returns the fixed text that confirms that the process is up.
pub fn say_hello() -> (message: String)
    ensures
        message@ == greeting(),
{
    "Hello, world!".to_string()
}

} // verus!
