//! How the stages are run: what a worker is to do next, how it fails, the
//! retry policies that the runtime is given, and the wiring constants.

use crate::framework::errors::LyraError;
use vstd::prelude::*;

verus! {

/// How many messages a channel between two stages holds before the sender
/// has to wait.
pub const CHANNEL_CAPACITY: usize = 100;

/// What a worker is to do next.
#[derive(Debug)]
pub enum WorkSchedule<U> {
    /// Nothing now: wait, then ask again.
    Idle,
    /// Nothing ever again: shut down cleanly.
    Done,
    /// This unit of work.
    Unit(U),
}

/// How a worker failed.
#[derive(Debug, Clone, Copy, PartialEq, Eq, Structural)]
pub enum WorkerError {
    /// The stage cannot go on.
    Panic,
    /// The worker is to be bootstrapped anew.
    Restart,
    /// The work is to be tried again under the retry policy.
    Retry,
}

impl WorkerError {
    /// How the worker fails on a failure of the library: what the library
    /// refuses does not get better by trying again, so the stage stops.
    pub fn of(failure: &LyraError) -> (e: WorkerError)
        ensures
            e == WorkerError::Panic,
    {
        WorkerError::Panic
    }
}

/// How failed work is retried. Durations are in seconds.
#[derive(Debug, Clone, Copy, PartialEq, Eq, Structural)]
pub struct RetryPolicy {
    pub max_retries: usize,
    pub backoff_unit: u64,
    pub backoff_factor: u32,
    pub max_backoff: u64,
    pub dismissible: bool,
}

/// The retry policies of a stage, one per phase of its life.
#[derive(Debug, Clone, Copy, PartialEq, Eq, Structural)]
pub struct Policy {
    pub tick_timeout: Option<u64>,
    pub bootstrap_retry: RetryPolicy,
    pub work_retry: RetryPolicy,
    pub teardown_retry: RetryPolicy,
}

/// The policy where the configuration gives none: 20 retries, from one
/// second on, doubling, up to a minute, never dismissed.
pub open spec fn default_retry() -> RetryPolicy {
    RetryPolicy {
        max_retries: 20,
        backoff_unit: 1,
        backoff_factor: 2,
        max_backoff: 60,
        dismissible: false,
    }
}

/// The policy of every stage: the configured retry policy, or the default,
/// for each phase alike, and no timeout per tick.
pub fn define_gasket_policy(config: Option<&RetryPolicy>) -> (policy: Policy)
    ensures
        policy.tick_timeout is None,
        policy.bootstrap_retry == match config {
            Some(c) => *c,
            None => default_retry(),
        },
        policy.work_retry == policy.bootstrap_retry,
        policy.teardown_retry == policy.bootstrap_retry,
{
    let retry = match config {
        Some(c) => *c,
        None => RetryPolicy {
            max_retries: 20,
            backoff_unit: 1,
            backoff_factor: 2,
            max_backoff: 60,
            dismissible: false,
        },
    };
    Policy { tick_timeout: None, bootstrap_retry: retry, work_retry: retry, teardown_retry: retry }
}

} // verus!
