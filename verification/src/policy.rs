//! Failure policy for the commands a session issues.
//!
//! Subscribe and unsubscribe commands must not fail silently: they are
//! retried a bounded number of times with a fixed pause, and exhaustion
//! tears the whole session down. Publishing the device address and
//! redrawing the screen are best-effort: a failure is reported and the
//! session carries on.

use vstd::prelude::*;

use crate::commands::{Command, CommandModel};

verus! {

/// How often one subscribe or unsubscribe command is attempted in all.
pub const MAX_COMMAND_ATTEMPTS: u32 = 3;

/// The fixed pause between two attempts, in milliseconds.
pub const RETRY_BACKOFF_MS: u64 = 500;

/// The fixed pause before a torn-down session is restarted, in
/// milliseconds.
pub const SESSION_RESTART_DELAY_MS: u64 = 1000;

/// How many events the channel between the event source and the
/// coordinator may hold: the queue is bounded so that a constrained device
/// cannot be driven out of memory, and a full queue blocks the producer.
pub const EVENT_QUEUE_DEPTH: usize = 16;

/// What to do after a critical command failed.
pub enum RetryDecision {
    /// Pause for [`RETRY_BACKOFF_MS`], then attempt the command again.
    RetryAfterBackoff,
    /// Attempts are exhausted: tear the session down and start a fresh
    /// one.
    SessionFatal,
}

/// A command whose failure may leave the binding table inconsistent.
/// Publishing and rendering are best-effort and never fatal.
pub open spec fn spec_command_is_critical(c: CommandModel) -> bool {
    match c {
        CommandModel::Subscribe(_) => true,
        CommandModel::Unsubscribe(_) => true,
        CommandModel::Publish { .. } => false,
        CommandModel::Render { .. } => false,
    }
}

/// Whether a failure of `c` must be retried and may end the session.
pub fn command_is_critical(c: &Command) -> (r: bool)
    ensures
        r == spec_command_is_critical(c@),
{
    match c {
        Command::Subscribe(_) => true,
        Command::Unsubscribe(_) => true,
        Command::Publish { .. } => false,
        Command::Render { .. } => false,
    }
}

/// The decision after a critical command failed `failed_attempts` times:
/// retry while attempts are left, session-fatal once they are exhausted.
pub fn command_failure_decision(failed_attempts: u32) -> (d: RetryDecision)
    ensures
        d is RetryAfterBackoff <==> failed_attempts < MAX_COMMAND_ATTEMPTS,
{
    if failed_attempts < MAX_COMMAND_ATTEMPTS {
        RetryDecision::RetryAfterBackoff
    } else {
        RetryDecision::SessionFatal
    }
}

} // verus!
