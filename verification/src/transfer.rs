//! Transfer state machine.
//!
//! A pure function governing start / pause / resume / retry / completion of
//! a byte transfer. The machine alone interprets whether a reported error is
//! retryable: a retryable interruption enters `Resuming` carrying the last
//! confirmed offset, with an exponential backoff and a hard ceiling of three
//! resume attempts; anything else, or an exhausted ceiling, is a terminal
//! failure that still remembers how many bytes had been acknowledged.

use crate::engine::{StateError, TransitionResult};
use crate::text::{spec_u64_string, u64_to_string};
use crate::timeline::{LogLevel, TimelineEntry};
use vstd::prelude::*;

verus! {

/// A reported transfer error: a report, not a decision. The machine alone
/// decides what `is_retryable` leads to.
#[derive(Debug)]
pub struct TransferError {
    pub code: String,
    pub message: String,
    pub is_retryable: bool,
}

impl Clone for TransferError {
    fn clone(&self) -> (res: Self)
        ensures
            res == *self,
    {
        TransferError {
            code: self.code.clone(),
            message: self.message.clone(),
            is_retryable: self.is_retryable,
        }
    }
}

/// Side effect owed to the executor; the machine never performs it itself.
#[derive(Debug, Clone)]
pub enum TransferAction {
    /// Start the actual transfer from the given offset.
    StartTransfer { transfer_id: String, url: String, offset: u64 },
    /// Schedule a retry attempt resuming from the given offset.
    ScheduleRetry { delay_ms: u64, attempt: u32, from_offset: u64 },
    /// Pause the active transfer.
    PauseTransfer { transfer_id: String },
    /// Resume from the given offset.
    ResumeTransfer { transfer_id: String, from_offset: u64 },
    /// Cancel and clean up.
    CancelTransfer { transfer_id: String },
    /// Update progress in the UI; `speed` is in bytes per second.
    UpdateProgress { bytes: u64, total: u64, speed: u64 },
    /// Emit an event to the UI layer.
    EmitUiEvent { event_type: String, data: String },
    /// Log a line for the timeline.
    LogTimeline { message: String, level: LogLevel },
    /// Notify completion.
    NotifyComplete { transfer_id: String },
    /// Notify failure, and whether a manual retry could help.
    NotifyFailed { transfer_id: String, error: String, can_retry: bool },
}

/// The transfer lifecycle state; replaced wholesale on every accepted
/// transition. `speed_bps` is in bytes per second.
#[derive(Debug, Clone)]
pub enum TransferState {
    Idle,
    Preparing { transfer_id: String, started_at: i64 },
    Transferring {
        transfer_id: String,
        started_at: i64,
        bytes_transferred: u64,
        total_bytes: u64,
        speed_bps: u64,
    },
    Paused { transfer_id: String, paused_at: i64, bytes_transferred: u64, total_bytes: u64 },
    Resuming { transfer_id: String, from_offset: u64, total_bytes: u64, attempt: u32 },
    Completed { transfer_id: String, completed_at: i64, total_bytes: u64, duration_ms: u64 },
    Failed { transfer_id: String, failed_at: i64, bytes_at_failure: u64, error: TransferError },
}

/// The variant of a [`TransferState`], without its payload.
#[derive(Debug, Clone, Copy, PartialEq, Eq, Structural)]
pub enum TransferStateKind {
    Idle,
    Preparing,
    Transferring,
    Paused,
    Resuming,
    Completed,
    Failed,
}

/// Input to a transfer transition. `Progress` carries an absolute byte
/// count; `speed` is in bytes per second.
#[derive(Debug, Clone)]
pub enum TransferEvent {
    Start { transfer_id: String, url: String, total_bytes: u64 },
    Ready { total_bytes: u64 },
    Progress { bytes: u64, speed: u64 },
    Pause,
    Resume,
    Done,
    Error { error: TransferError },
    Cancel,
    Retry { url: String },
    Reset,
}

/// Hard ceiling of automatic resume attempts.
pub const RESUME_ATTEMPT_CEILING: u32 = 3;

/// The variant of a state.
pub open spec fn xfer_kind(s: TransferState) -> TransferStateKind {
    match s {
        TransferState::Idle => TransferStateKind::Idle,
        TransferState::Preparing { .. } => TransferStateKind::Preparing,
        TransferState::Transferring { .. } => TransferStateKind::Transferring,
        TransferState::Paused { .. } => TransferStateKind::Paused,
        TransferState::Resuming { .. } => TransferStateKind::Resuming,
        TransferState::Completed { .. } => TransferStateKind::Completed,
        TransferState::Failed { .. } => TransferStateKind::Failed,
    }
}

/// The name of a state variant, as it appears in timeline entries.
pub open spec fn xfer_kind_name(k: TransferStateKind) -> Seq<char> {
    match k {
        TransferStateKind::Idle => "Idle"@,
        TransferStateKind::Preparing => "Preparing"@,
        TransferStateKind::Transferring => "Transferring"@,
        TransferStateKind::Paused => "Paused"@,
        TransferStateKind::Resuming => "Resuming"@,
        TransferStateKind::Completed => "Completed"@,
        TransferStateKind::Failed => "Failed"@,
    }
}

/// The name of an event variant, as it appears in timeline entries.
pub open spec fn xfer_event_name(e: TransferEvent) -> Seq<char> {
    match e {
        TransferEvent::Start { .. } => "Start"@,
        TransferEvent::Ready { .. } => "Ready"@,
        TransferEvent::Progress { .. } => "Progress"@,
        TransferEvent::Pause => "Pause"@,
        TransferEvent::Resume => "Resume"@,
        TransferEvent::Done => "Done"@,
        TransferEvent::Error { .. } => "Error"@,
        TransferEvent::Cancel => "Cancel"@,
        TransferEvent::Retry { .. } => "Retry"@,
        TransferEvent::Reset => "Reset"@,
    }
}

/// The name of an action variant, as it appears in timeline entries.
pub open spec fn xfer_action_name(a: TransferAction) -> Seq<char> {
    match a {
        TransferAction::StartTransfer { .. } => "StartTransfer"@,
        TransferAction::ScheduleRetry { .. } => "ScheduleRetry"@,
        TransferAction::PauseTransfer { .. } => "PauseTransfer"@,
        TransferAction::ResumeTransfer { .. } => "ResumeTransfer"@,
        TransferAction::CancelTransfer { .. } => "CancelTransfer"@,
        TransferAction::UpdateProgress { .. } => "UpdateProgress"@,
        TransferAction::EmitUiEvent { .. } => "EmitUiEvent"@,
        TransferAction::LogTimeline { .. } => "LogTimeline"@,
        TransferAction::NotifyComplete { .. } => "NotifyComplete"@,
        TransferAction::NotifyFailed { .. } => "NotifyFailed"@,
    }
}

/// The wall-clock duration from `started_at` to `now`, clamped at zero when
/// the clock reads backwards.
pub open spec fn spec_duration_ms(started_at: i64, now: i64) -> u64 {
    if now >= started_at {
        (now - started_at) as u64
    } else {
        0
    }
}

/// The exponential backoff before resume attempt `attempt + 1`: `2^attempt`
/// seconds for the attempts below the ceiling.
pub open spec fn spec_resume_delay_ms(attempt: u32) -> u64
    recommends
        1 <= attempt < RESUME_ATTEMPT_CEILING,
{
    if attempt == 1 {
        2000
    } else {
        4000
    }
}

/// Whether `(s, e)` is one of the defined transition rules. A manual `Retry`
/// is defined only on a `Failed` state whose error was retryable and where
/// some partial progress survived.
pub open spec fn xfer_valid(s: TransferState, e: TransferEvent) -> bool {
    match (s, e) {
        (TransferState::Idle, TransferEvent::Start { .. }) => true,
        (TransferState::Preparing { .. }, TransferEvent::Ready { .. }) => true,
        (TransferState::Preparing { .. }, TransferEvent::Error { .. }) => true,
        (TransferState::Transferring { .. }, TransferEvent::Progress { .. }) => true,
        (TransferState::Transferring { .. }, TransferEvent::Pause) => true,
        (TransferState::Transferring { .. }, TransferEvent::Done) => true,
        (TransferState::Transferring { .. }, TransferEvent::Error { .. }) => true,
        (TransferState::Paused { .. }, TransferEvent::Resume) => true,
        (TransferState::Paused { .. }, TransferEvent::Cancel) => true,
        (TransferState::Resuming { .. }, TransferEvent::Ready { .. }) => true,
        (TransferState::Resuming { .. }, TransferEvent::Error { .. }) => true,
        (
            TransferState::Failed { bytes_at_failure, error, .. },
            TransferEvent::Retry { .. },
        ) => error.is_retryable && bytes_at_failure > 0,
        (TransferState::Failed { .. }, TransferEvent::Reset) => true,
        (TransferState::Completed { .. }, TransferEvent::Reset) => true,
        _ => false,
    }
}

/// The replacement state for a valid `(s, e)` pair, with `now` as the
/// timestamp written into time-stamped fields.
pub open spec fn xfer_next(s: TransferState, e: TransferEvent, now: i64) -> TransferState
    recommends
        xfer_valid(s, e),
{
    match (s, e) {
        (TransferState::Idle, TransferEvent::Start { transfer_id, .. }) => {
            TransferState::Preparing { transfer_id, started_at: now }
        },
        (
            TransferState::Preparing { transfer_id, started_at },
            TransferEvent::Ready { total_bytes },
        ) => {
            TransferState::Transferring {
                transfer_id,
                started_at,
                bytes_transferred: 0,
                total_bytes,
                speed_bps: 0,
            }
        },
        (TransferState::Preparing { transfer_id, .. }, TransferEvent::Error { error }) => {
            TransferState::Failed { transfer_id, failed_at: now, bytes_at_failure: 0, error }
        },
        (
            TransferState::Transferring { transfer_id, started_at, total_bytes, .. },
            TransferEvent::Progress { bytes, speed },
        ) => {
            TransferState::Transferring {
                transfer_id,
                started_at,
                bytes_transferred: bytes,
                total_bytes,
                speed_bps: speed,
            }
        },
        (
            TransferState::Transferring { transfer_id, bytes_transferred, total_bytes, .. },
            TransferEvent::Pause,
        ) => {
            TransferState::Paused {
                transfer_id,
                paused_at: now,
                bytes_transferred,
                total_bytes,
            }
        },
        (
            TransferState::Transferring { transfer_id, started_at, total_bytes, .. },
            TransferEvent::Done,
        ) => {
            TransferState::Completed {
                transfer_id,
                completed_at: now,
                total_bytes,
                duration_ms: spec_duration_ms(started_at, now),
            }
        },
        (
            TransferState::Transferring { transfer_id, bytes_transferred, .. },
            TransferEvent::Error { error },
        ) => {
            if error.is_retryable {
                TransferState::Resuming {
                    transfer_id,
                    from_offset: bytes_transferred,
                    total_bytes: 0,
                    attempt: 1,
                }
            } else {
                TransferState::Failed {
                    transfer_id,
                    failed_at: now,
                    bytes_at_failure: bytes_transferred,
                    error,
                }
            }
        },
        (
            TransferState::Paused { transfer_id, bytes_transferred, total_bytes, .. },
            TransferEvent::Resume,
        ) => {
            TransferState::Resuming {
                transfer_id,
                from_offset: bytes_transferred,
                total_bytes,
                attempt: 1,
            }
        },
        (TransferState::Paused { .. }, TransferEvent::Cancel) => TransferState::Idle,
        (
            TransferState::Resuming { transfer_id, from_offset, total_bytes, .. },
            TransferEvent::Ready { total_bytes: new_total },
        ) => {
            TransferState::Transferring {
                transfer_id,
                started_at: now,
                bytes_transferred: from_offset,
                total_bytes: if total_bytes > 0 {
                    total_bytes
                } else {
                    new_total
                },
                speed_bps: 0,
            }
        },
        (
            TransferState::Resuming { transfer_id, from_offset, total_bytes, attempt },
            TransferEvent::Error { error },
        ) => {
            if attempt < RESUME_ATTEMPT_CEILING && error.is_retryable {
                TransferState::Resuming {
                    transfer_id,
                    from_offset,
                    total_bytes,
                    attempt: (attempt + 1) as u32,
                }
            } else {
                TransferState::Failed {
                    transfer_id,
                    failed_at: now,
                    bytes_at_failure: from_offset,
                    error,
                }
            }
        },
        (
            TransferState::Failed { transfer_id, bytes_at_failure, .. },
            TransferEvent::Retry { .. },
        ) => {
            TransferState::Resuming {
                transfer_id,
                from_offset: bytes_at_failure,
                total_bytes: 0,
                attempt: 1,
            }
        },
        (TransferState::Failed { .. }, TransferEvent::Reset) => TransferState::Idle,
        (TransferState::Completed { .. }, TransferEvent::Reset) => TransferState::Idle,
        _ => s,
    }
}

/// A log action with the given constant message and level.
pub open spec fn is_xlog(a: TransferAction, msg: Seq<char>, lvl: LogLevel) -> bool {
    a matches TransferAction::LogTimeline { message, level } && message@ == msg && level == lvl
}

/// A UI event action carrying a value taken from the state or event.
pub open spec fn is_xemit(a: TransferAction, et: Seq<char>, data: String) -> bool {
    a matches TransferAction::EmitUiEvent { event_type, data: d } && event_type@ == et && d
        == data
}

/// A UI event action whose payload is a rendered number or constant.
pub open spec fn is_xemit_chars(a: TransferAction, et: Seq<char>, data: Seq<char>) -> bool {
    a matches TransferAction::EmitUiEvent { event_type, data: d } && event_type@ == et && d@
        == data
}

/// The exact action list owed for a valid `(s, e)` pair, in order.
pub open spec fn xfer_actions_ok(
    s: TransferState,
    e: TransferEvent,
    acts: Seq<TransferAction>,
) -> bool
    recommends
        xfer_valid(s, e),
{
    match (s, e) {
        (TransferState::Idle, TransferEvent::Start { transfer_id, url, .. }) => {
            &&& acts.len() == 3
            &&& acts[0] == (TransferAction::StartTransfer { transfer_id, url, offset: 0 })
            &&& is_xlog(acts[1], "Starting transfer"@, LogLevel::Info)
            &&& is_xemit(acts[2], "TRANSFER_STARTED"@, transfer_id)
        },
        (TransferState::Preparing { .. }, TransferEvent::Ready { .. }) => {
            &&& acts.len() == 1
            &&& is_xlog(acts[0], "Transfer ready"@, LogLevel::Info)
        },
        (TransferState::Preparing { transfer_id, .. }, TransferEvent::Error { error }) => {
            &&& acts.len() == 3
            &&& acts[0] == (TransferAction::NotifyFailed {
                transfer_id,
                error: error.message,
                can_retry: error.is_retryable,
            })
            &&& is_xlog(acts[1], "Transfer failed in preparation"@, LogLevel::Error)
            &&& is_xemit(acts[2], "TRANSFER_FAILED"@, error.message)
        },
        (
            TransferState::Transferring { total_bytes, .. },
            TransferEvent::Progress { bytes, speed },
        ) => {
            &&& acts.len() == 1
            &&& acts[0] == (TransferAction::UpdateProgress { bytes, total: total_bytes, speed })
        },
        (
            TransferState::Transferring { transfer_id, bytes_transferred, .. },
            TransferEvent::Pause,
        ) => {
            &&& acts.len() == 3
            &&& acts[0] == (TransferAction::PauseTransfer { transfer_id })
            &&& is_xlog(acts[1], "Transfer paused"@, LogLevel::Info)
            &&& is_xemit_chars(
                acts[2],
                "TRANSFER_PAUSED"@,
                spec_u64_string(bytes_transferred as int),
            )
        },
        (TransferState::Transferring { transfer_id, .. }, TransferEvent::Done) => {
            &&& acts.len() == 3
            &&& acts[0] == (TransferAction::NotifyComplete { transfer_id })
            &&& is_xlog(acts[1], "Transfer completed"@, LogLevel::Info)
            &&& is_xemit(acts[2], "TRANSFER_COMPLETED"@, transfer_id)
        },
        (
            TransferState::Transferring { transfer_id, bytes_transferred, .. },
            TransferEvent::Error { error },
        ) => {
            if error.is_retryable {
                &&& acts.len() == 3
                &&& acts[0] == (TransferAction::ScheduleRetry {
                    delay_ms: 1000,
                    attempt: 1,
                    from_offset: bytes_transferred,
                })
                &&& is_xlog(acts[1], "Transfer interrupted, retrying"@, LogLevel::Warn)
                &&& is_xemit_chars(acts[2], "TRANSFER_RETRYING"@, "1"@)
            } else {
                &&& acts.len() == 3
                &&& acts[0] == (TransferAction::NotifyFailed {
                    transfer_id,
                    error: error.message,
                    can_retry: false,
                })
                &&& is_xlog(acts[1], "Transfer failed"@, LogLevel::Error)
                &&& is_xemit(acts[2], "TRANSFER_FAILED"@, error.message)
            }
        },
        (
            TransferState::Paused { transfer_id, bytes_transferred, .. },
            TransferEvent::Resume,
        ) => {
            &&& acts.len() == 2
            &&& acts[0] == (TransferAction::ResumeTransfer {
                transfer_id,
                from_offset: bytes_transferred,
            })
            &&& is_xlog(acts[1], "Resuming transfer"@, LogLevel::Info)
        },
        (TransferState::Paused { transfer_id, .. }, TransferEvent::Cancel) => {
            &&& acts.len() == 3
            &&& acts[0] == (TransferAction::CancelTransfer { transfer_id })
            &&& is_xlog(acts[1], "Transfer cancelled"@, LogLevel::Info)
            &&& is_xemit(acts[2], "TRANSFER_CANCELLED"@, transfer_id)
        },
        (TransferState::Resuming { from_offset, .. }, TransferEvent::Ready { .. }) => {
            &&& acts.len() == 2
            &&& is_xlog(acts[0], "Transfer resumed"@, LogLevel::Info)
            &&& is_xemit_chars(
                acts[1],
                "TRANSFER_RESUMED"@,
                spec_u64_string(from_offset as int),
            )
        },
        (
            TransferState::Resuming { transfer_id, from_offset, attempt, .. },
            TransferEvent::Error { error },
        ) => {
            if attempt < RESUME_ATTEMPT_CEILING && error.is_retryable {
                &&& acts.len() == 2
                &&& acts[0] == (TransferAction::ScheduleRetry {
                    delay_ms: spec_resume_delay_ms(attempt),
                    attempt: (attempt + 1) as u32,
                    from_offset,
                })
                &&& is_xlog(acts[1], "Resume attempt failed, retrying"@, LogLevel::Warn)
            } else {
                &&& acts.len() == 3
                &&& acts[0] == (TransferAction::NotifyFailed {
                    transfer_id,
                    error: error.message,
                    can_retry: error.is_retryable,
                })
                &&& is_xlog(acts[1], "Transfer failed after max retries"@, LogLevel::Error)
                &&& is_xemit(acts[2], "TRANSFER_FAILED"@, error.message)
            }
        },
        (
            TransferState::Failed { transfer_id, bytes_at_failure, .. },
            TransferEvent::Retry { url },
        ) => {
            &&& acts.len() == 2
            &&& acts[0] == (TransferAction::StartTransfer {
                transfer_id,
                url,
                offset: bytes_at_failure,
            })
            &&& is_xlog(acts[1], "Manual retry of transfer"@, LogLevel::Info)
        },
        (TransferState::Failed { .. }, TransferEvent::Reset) => {
            &&& acts.len() == 1
            &&& is_xlog(acts[0], "Transfer state reset to Idle"@, LogLevel::Info)
        },
        (TransferState::Completed { .. }, TransferEvent::Reset) => {
            &&& acts.len() == 1
            &&& is_xlog(acts[0], "Transfer state reset to Idle"@, LogLevel::Info)
        },
        _ => false,
    }
}

/// The timeline entry owed for a transition: the timestamp and sequence
/// handed in, the variant names of the event and the two states, and one
/// name per action, in order.
pub open spec fn xfer_entry_ok(
    s: TransferState,
    e: TransferEvent,
    sequence: u64,
    now: i64,
    entry: TimelineEntry,
    acts: Seq<TransferAction>,
) -> bool {
    &&& entry.timestamp == now
    &&& entry.sequence == sequence
    &&& entry.event_type@ == xfer_event_name(e)
    &&& entry.from_state@ == xfer_kind_name(xfer_kind(s))
    &&& entry.to_state@ == xfer_kind_name(xfer_kind(xfer_next(s, e, now)))
    &&& entry.actions_produced@.len() == acts.len()
    &&& forall|i: int|
        0 <= i < acts.len() ==> entry.actions_produced@[i]@ == xfer_action_name(acts[i])
    &&& entry.data is None
}

/// Everything a successful transition promises.
pub open spec fn xfer_result_ok(
    s: TransferState,
    e: TransferEvent,
    sequence: u64,
    now: i64,
    tr: TransitionResult<TransferState, TransferAction>,
) -> bool {
    &&& tr.new_state == xfer_next(s, e, now)
    &&& xfer_actions_ok(s, e, tr.actions@)
    &&& xfer_entry_ok(s, e, sequence, now, tr.timeline_entry, tr.actions@)
}

/// Some element of `acts` is a `StartTransfer` from the given offset.
pub open spec fn has_start_transfer(acts: Seq<TransferAction>, off: u64) -> bool {
    exists|i: int|
        {
            &&& 0 <= i < acts.len()
            &&& (#[trigger] acts[i]) matches TransferAction::StartTransfer { offset, .. }
            &&& offset == off
        }
}

/// Some element of `acts` is a `ScheduleRetry` from the given offset.
pub open spec fn has_schedule_retry(acts: Seq<TransferAction>, off: u64) -> bool {
    exists|i: int|
        {
            &&& 0 <= i < acts.len()
            &&& (#[trigger] acts[i]) matches TransferAction::ScheduleRetry { from_offset, .. }
            &&& from_offset == off
        }
}

/// Some element of `acts` is a `NotifyFailed` with the given retry hint.
pub open spec fn has_notify_failed(acts: Seq<TransferAction>, retry: bool) -> bool {
    exists|i: int|
        {
            &&& 0 <= i < acts.len()
            &&& (#[trigger] acts[i]) matches TransferAction::NotifyFailed { can_retry, .. }
            &&& can_retry == retry
        }
}

/// Some element of `acts` is of the variant singled out by the tester.
pub open spec fn has_update_progress(acts: Seq<TransferAction>) -> bool {
    exists|i: int| 0 <= i < acts.len() && (#[trigger] acts[i]) is UpdateProgress
}

/// Some element of `acts` is a `PauseTransfer`.
pub open spec fn has_pause_transfer(acts: Seq<TransferAction>) -> bool {
    exists|i: int| 0 <= i < acts.len() && (#[trigger] acts[i]) is PauseTransfer
}

/// Some element of `acts` is a `ResumeTransfer` from the given offset.
pub open spec fn has_resume_transfer(acts: Seq<TransferAction>, off: u64) -> bool {
    exists|i: int|
        {
            &&& 0 <= i < acts.len()
            &&& (#[trigger] acts[i]) matches TransferAction::ResumeTransfer { from_offset, .. }
            &&& from_offset == off
        }
}

/// Some element of `acts` is a `CancelTransfer`.
pub open spec fn has_cancel_transfer(acts: Seq<TransferAction>) -> bool {
    exists|i: int| 0 <= i < acts.len() && (#[trigger] acts[i]) is CancelTransfer
}

/// Some element of `acts` is a `NotifyComplete`.
pub open spec fn has_notify_complete(acts: Seq<TransferAction>) -> bool {
    exists|i: int| 0 <= i < acts.len() && (#[trigger] acts[i]) is NotifyComplete
}

/// Some element of `acts` is a `LogTimeline`.
pub open spec fn has_xfer_log(acts: Seq<TransferAction>) -> bool {
    exists|i: int| 0 <= i < acts.len() && (#[trigger] acts[i]) is LogTimeline
}

/// The named primary action of each defined rule is present in `acts`.
pub open spec fn xfer_has_primary(
    s: TransferState,
    e: TransferEvent,
    acts: Seq<TransferAction>,
) -> bool {
    match (s, e) {
        (TransferState::Idle, TransferEvent::Start { .. }) => has_start_transfer(acts, 0),
        (TransferState::Preparing { .. }, TransferEvent::Ready { .. }) => has_xfer_log(acts),
        (TransferState::Preparing { .. }, TransferEvent::Error { error }) => has_notify_failed(
            acts,
            error.is_retryable,
        ),
        (TransferState::Transferring { .. }, TransferEvent::Progress { .. }) => {
            has_update_progress(acts)
        },
        (TransferState::Transferring { .. }, TransferEvent::Pause) => has_pause_transfer(acts),
        (TransferState::Transferring { .. }, TransferEvent::Done) => has_notify_complete(acts),
        (
            TransferState::Transferring { bytes_transferred, .. },
            TransferEvent::Error { error },
        ) => {
            if error.is_retryable {
                has_schedule_retry(acts, bytes_transferred)
            } else {
                has_notify_failed(acts, false)
            }
        },
        (TransferState::Paused { bytes_transferred, .. }, TransferEvent::Resume) => {
            has_resume_transfer(acts, bytes_transferred)
        },
        (TransferState::Paused { .. }, TransferEvent::Cancel) => has_cancel_transfer(acts),
        (TransferState::Resuming { .. }, TransferEvent::Ready { .. }) => has_xfer_log(acts),
        (
            TransferState::Resuming { from_offset, attempt, .. },
            TransferEvent::Error { error },
        ) => {
            if attempt < RESUME_ATTEMPT_CEILING && error.is_retryable {
                has_schedule_retry(acts, from_offset)
            } else {
                has_notify_failed(acts, error.is_retryable)
            }
        },
        (TransferState::Failed { bytes_at_failure, .. }, TransferEvent::Retry { .. }) => {
            has_start_transfer(acts, bytes_at_failure)
        },
        (TransferState::Failed { .. }, TransferEvent::Reset) => has_xfer_log(acts),
        (TransferState::Completed { .. }, TransferEvent::Reset) => has_xfer_log(acts),
        _ => true,
    }
}

/// Every defined rule produces a non-empty action list that contains at
/// least the primary action named for it.
pub proof fn lemma_xfer_valid_has_primary_action(
    s: TransferState,
    e: TransferEvent,
    acts: Seq<TransferAction>,
)
    requires
        xfer_valid(s, e),
        xfer_actions_ok(s, e, acts),
    ensures
        acts.len() > 0,
        xfer_has_primary(s, e, acts),
{
}

/// A retryable interruption of an active transfer always enters `Resuming`
/// at the last confirmed offset with attempt 1, and schedules a retry from
/// that same offset — the resume offset never exceeds what was acknowledged.
pub proof fn lemma_retryable_error_resumes_from_offset(
    s: TransferState,
    error: TransferError,
    now: i64,
    acts: Seq<TransferAction>,
)
    requires
        s is Transferring,
        error.is_retryable,
        xfer_actions_ok(s, TransferEvent::Error { error }, acts),
    ensures
        xfer_valid(s, TransferEvent::Error { error }),
        ({
            let n = xfer_next(s, TransferEvent::Error { error }, now);
            &&& n matches TransferState::Resuming { from_offset, attempt, .. } && from_offset == s
                ->Transferring_bytes_transferred && attempt == 1
            &&& has_schedule_retry(acts, s->Transferring_bytes_transferred)
        }),
{
}

/// Byte-count sanity of a state: once the total is known (non-zero), the
/// bytes transferred, the pause bookkeeping and the resume offset never
/// exceed it. A total of 0 means the total is not known yet.
pub open spec fn xfer_state_wf(s: TransferState) -> bool {
    match s {
        TransferState::Transferring { bytes_transferred, total_bytes, .. } => total_bytes == 0
            || bytes_transferred <= total_bytes,
        TransferState::Paused { bytes_transferred, total_bytes, .. } => total_bytes == 0
            || bytes_transferred <= total_bytes,
        TransferState::Resuming { from_offset, total_bytes, .. } => total_bytes == 0
            || from_offset <= total_bytes,
        _ => true,
    }
}

/// An event consistent with the byte bookkeeping: a progress report never
/// claims more than a known total, and a resume announcement covers at
/// least the offset being resumed from. The machine itself does not reject
/// inconsistent reports — that responsibility lies with the executor.
pub open spec fn xfer_event_wf(s: TransferState, e: TransferEvent) -> bool {
    match (s, e) {
        (
            TransferState::Transferring { total_bytes, .. },
            TransferEvent::Progress { bytes, .. },
        ) => total_bytes == 0 || bytes <= total_bytes,
        (
            TransferState::Resuming { from_offset, total_bytes, .. },
            TransferEvent::Ready { total_bytes: new_total },
        ) => total_bytes > 0 || new_total == 0 || from_offset <= new_total,
        _ => true,
    }
}

/// Byte-count sanity is an invariant: a transition on a sane state, fed an
/// event consistent with the bookkeeping, yields a sane state again — the
/// resume offset always carries forward a confirmed count, never more.
pub proof fn lemma_transfer_bytes_within_total(s: TransferState, e: TransferEvent, now: i64)
    requires
        xfer_valid(s, e),
        xfer_state_wf(s),
        xfer_event_wf(s, e),
    ensures
        xfer_state_wf(xfer_next(s, e, now)),
{
}

impl TransferStateKind {
    /// The variant name, for timeline entries.
    pub fn name(&self) -> (res: String)
        ensures
            res@ == xfer_kind_name(*self),
    {
        match self {
            TransferStateKind::Idle => "Idle".to_owned(),
            TransferStateKind::Preparing => "Preparing".to_owned(),
            TransferStateKind::Transferring => "Transferring".to_owned(),
            TransferStateKind::Paused => "Paused".to_owned(),
            TransferStateKind::Resuming => "Resuming".to_owned(),
            TransferStateKind::Completed => "Completed".to_owned(),
            TransferStateKind::Failed => "Failed".to_owned(),
        }
    }
}

impl TransferEvent {
    /// The variant name, for timeline entries and error reports.
    pub fn name(&self) -> (res: String)
        ensures
            res@ == xfer_event_name(*self),
    {
        match self {
            TransferEvent::Start { .. } => "Start".to_owned(),
            TransferEvent::Ready { .. } => "Ready".to_owned(),
            TransferEvent::Progress { .. } => "Progress".to_owned(),
            TransferEvent::Pause => "Pause".to_owned(),
            TransferEvent::Resume => "Resume".to_owned(),
            TransferEvent::Done => "Done".to_owned(),
            TransferEvent::Error { .. } => "Error".to_owned(),
            TransferEvent::Cancel => "Cancel".to_owned(),
            TransferEvent::Retry { .. } => "Retry".to_owned(),
            TransferEvent::Reset => "Reset".to_owned(),
        }
    }
}

impl TransferAction {
    /// The variant name, for timeline entries.
    pub fn name(&self) -> (res: String)
        ensures
            res@ == xfer_action_name(*self),
    {
        match self {
            TransferAction::StartTransfer { .. } => "StartTransfer".to_owned(),
            TransferAction::ScheduleRetry { .. } => "ScheduleRetry".to_owned(),
            TransferAction::PauseTransfer { .. } => "PauseTransfer".to_owned(),
            TransferAction::ResumeTransfer { .. } => "ResumeTransfer".to_owned(),
            TransferAction::CancelTransfer { .. } => "CancelTransfer".to_owned(),
            TransferAction::UpdateProgress { .. } => "UpdateProgress".to_owned(),
            TransferAction::EmitUiEvent { .. } => "EmitUiEvent".to_owned(),
            TransferAction::LogTimeline { .. } => "LogTimeline".to_owned(),
            TransferAction::NotifyComplete { .. } => "NotifyComplete".to_owned(),
            TransferAction::NotifyFailed { .. } => "NotifyFailed".to_owned(),
        }
    }
}

/// One name per action, in order.
fn xfer_action_names(v: &Vec<TransferAction>) -> (res: Vec<String>)
    ensures
        res@.len() == v@.len(),
        forall|i: int| 0 <= i < v@.len() ==> res@[i]@ == xfer_action_name(v@[i]),
{
    let mut res: Vec<String> = Vec::new();
    let mut i: usize = 0;
    while i < v.len()
        invariant
            i <= v@.len(),
            res@.len() == i,
            forall|j: int| 0 <= j < i ==> res@[j]@ == xfer_action_name(v@[j]),
        decreases v@.len() - i,
    {
        res.push(v[i].name());
        i = i + 1;
    }
    res
}

impl Default for TransferState {
    fn default() -> (s: Self)
        ensures
            s == TransferState::Idle,
    {
        TransferState::Idle
    }
}

impl TransferState {
    /// The variant of this state.
    pub fn kind(&self) -> (k: TransferStateKind)
        ensures
            k == xfer_kind(*self),
    {
        match self {
            TransferState::Idle => TransferStateKind::Idle,
            TransferState::Preparing { .. } => TransferStateKind::Preparing,
            TransferState::Transferring { .. } => TransferStateKind::Transferring,
            TransferState::Paused { .. } => TransferStateKind::Paused,
            TransferState::Resuming { .. } => TransferStateKind::Resuming,
            TransferState::Completed { .. } => TransferStateKind::Completed,
            TransferState::Failed { .. } => TransferStateKind::Failed,
        }
    }

    /// The transfer this state belongs to, if any.
    pub fn transfer_id(&self) -> (res: Option<&str>)
        ensures
            match res {
                Some(id) => self !is Idle && id@ == self.spec_transfer_id(),
                None => self is Idle,
            },
    {
        match self {
            TransferState::Idle => None,
            TransferState::Preparing { transfer_id, .. } => Some(transfer_id.as_str()),
            TransferState::Transferring { transfer_id, .. } => Some(transfer_id.as_str()),
            TransferState::Paused { transfer_id, .. } => Some(transfer_id.as_str()),
            TransferState::Resuming { transfer_id, .. } => Some(transfer_id.as_str()),
            TransferState::Completed { transfer_id, .. } => Some(transfer_id.as_str()),
            TransferState::Failed { transfer_id, .. } => Some(transfer_id.as_str()),
        }
    }

    /// The transfer id carried by a non-`Idle` state.
    pub open spec fn spec_transfer_id(&self) -> Seq<char>
        recommends
            *self !is Idle,
    {
        match *self {
            TransferState::Idle => Seq::empty(),
            TransferState::Preparing { transfer_id, .. } => transfer_id@,
            TransferState::Transferring { transfer_id, .. } => transfer_id@,
            TransferState::Paused { transfer_id, .. } => transfer_id@,
            TransferState::Resuming { transfer_id, .. } => transfer_id@,
            TransferState::Completed { transfer_id, .. } => transfer_id@,
            TransferState::Failed { transfer_id, .. } => transfer_id@,
        }
    }

    /// `Completed` and `Failed` are the terminal states: nothing but an
    /// explicit `Reset` (or a defined manual `Retry`) leaves them.
    pub fn is_terminal(&self) -> (res: bool)
        ensures
            res == (*self is Completed || *self is Failed),
    {
        matches!(self, TransferState::Completed { .. } | TransferState::Failed { .. })
    }

    /// Only an active transfer can be paused.
    pub fn can_pause(&self) -> (res: bool)
        ensures
            res == (*self is Transferring),
    {
        matches!(self, TransferState::Transferring { .. })
    }

    /// A paused transfer can resume; a failed one only if its error was
    /// retryable.
    pub fn can_resume(&self) -> (res: bool)
        ensures
            res == (*self is Paused || (*self matches TransferState::Failed { error, .. }
                && error.is_retryable)),
    {
        match self {
            TransferState::Paused { .. } => true,
            TransferState::Failed { error, .. } => error.is_retryable,
            _ => false,
        }
    }

    /// Process one event against this state, with `now` as the timestamp
    /// written into the replacement state and the timeline entry.
    ///
    /// Returns `Ok` exactly on the defined `(state, event)` pairs, with the
    /// replacement state, the action list, and the timeline entry all pinned
    /// by [`xfer_result_ok`]; every other pair yields
    /// [`StateError::InvalidTransition`] naming the state and the event.
    pub fn transition_at(&self, event: TransferEvent, sequence: u64, now: i64) -> (r: Result<
        TransitionResult<TransferState, TransferAction>,
        StateError,
    >)
        ensures
            r is Ok <==> xfer_valid(*self, event),
            r matches Ok(tr) ==> xfer_result_ok(*self, event, sequence, now, tr),
            r matches Err(err) ==> err matches StateError::InvalidTransition { from, event: ev }
                && from@ == xfer_kind_name(xfer_kind(*self)) && ev@ == xfer_event_name(event),
    {
        let (new_state, actions): (TransferState, Vec<TransferAction>) = match (self, &event) {
            (TransferState::Idle, TransferEvent::Start { transfer_id, url, .. }) => {
                let new_state = TransferState::Preparing {
                    transfer_id: transfer_id.clone(),
                    started_at: now,
                };
                let mut actions: Vec<TransferAction> = Vec::new();
                actions.push(
                    TransferAction::StartTransfer {
                        transfer_id: transfer_id.clone(),
                        url: url.clone(),
                        offset: 0,
                    },
                );
                actions.push(
                    TransferAction::LogTimeline {
                        message: "Starting transfer".to_owned(),
                        level: LogLevel::Info,
                    },
                );
                actions.push(
                    TransferAction::EmitUiEvent {
                        event_type: "TRANSFER_STARTED".to_owned(),
                        data: transfer_id.clone(),
                    },
                );
                (new_state, actions)
            },
            (
                TransferState::Preparing { transfer_id, started_at },
                TransferEvent::Ready { total_bytes },
            ) => {
                let new_state = TransferState::Transferring {
                    transfer_id: transfer_id.clone(),
                    started_at: *started_at,
                    bytes_transferred: 0,
                    total_bytes: *total_bytes,
                    speed_bps: 0,
                };
                let mut actions: Vec<TransferAction> = Vec::new();
                actions.push(
                    TransferAction::LogTimeline {
                        message: "Transfer ready".to_owned(),
                        level: LogLevel::Info,
                    },
                );
                (new_state, actions)
            },
            (TransferState::Preparing { transfer_id, .. }, TransferEvent::Error { error }) => {
                let new_state = TransferState::Failed {
                    transfer_id: transfer_id.clone(),
                    failed_at: now,
                    bytes_at_failure: 0,
                    error: error.clone(),
                };
                let mut actions: Vec<TransferAction> = Vec::new();
                actions.push(
                    TransferAction::NotifyFailed {
                        transfer_id: transfer_id.clone(),
                        error: error.message.clone(),
                        can_retry: error.is_retryable,
                    },
                );
                actions.push(
                    TransferAction::LogTimeline {
                        message: "Transfer failed in preparation".to_owned(),
                        level: LogLevel::Error,
                    },
                );
                actions.push(
                    TransferAction::EmitUiEvent {
                        event_type: "TRANSFER_FAILED".to_owned(),
                        data: error.message.clone(),
                    },
                );
                (new_state, actions)
            },
            (
                TransferState::Transferring { transfer_id, started_at, total_bytes, .. },
                TransferEvent::Progress { bytes, speed },
            ) => {
                let new_state = TransferState::Transferring {
                    transfer_id: transfer_id.clone(),
                    started_at: *started_at,
                    bytes_transferred: *bytes,
                    total_bytes: *total_bytes,
                    speed_bps: *speed,
                };
                let mut actions: Vec<TransferAction> = Vec::new();
                actions.push(
                    TransferAction::UpdateProgress {
                        bytes: *bytes,
                        total: *total_bytes,
                        speed: *speed,
                    },
                );
                (new_state, actions)
            },
            (
                TransferState::Transferring {
                    transfer_id,
                    bytes_transferred,
                    total_bytes,
                    ..
                },
                TransferEvent::Pause,
            ) => {
                let new_state = TransferState::Paused {
                    transfer_id: transfer_id.clone(),
                    paused_at: now,
                    bytes_transferred: *bytes_transferred,
                    total_bytes: *total_bytes,
                };
                let mut actions: Vec<TransferAction> = Vec::new();
                actions.push(TransferAction::PauseTransfer { transfer_id: transfer_id.clone() });
                actions.push(
                    TransferAction::LogTimeline {
                        message: "Transfer paused".to_owned(),
                        level: LogLevel::Info,
                    },
                );
                actions.push(
                    TransferAction::EmitUiEvent {
                        event_type: "TRANSFER_PAUSED".to_owned(),
                        data: u64_to_string(*bytes_transferred),
                    },
                );
                (new_state, actions)
            },
            (
                TransferState::Transferring { transfer_id, started_at, total_bytes, .. },
                TransferEvent::Done,
            ) => {
                let duration_ms: u64 = if now >= *started_at {
                    ((now as i128) - (*started_at as i128)) as u64
                } else {
                    0
                };
                let new_state = TransferState::Completed {
                    transfer_id: transfer_id.clone(),
                    completed_at: now,
                    total_bytes: *total_bytes,
                    duration_ms,
                };
                let mut actions: Vec<TransferAction> = Vec::new();
                actions.push(TransferAction::NotifyComplete { transfer_id: transfer_id.clone() });
                actions.push(
                    TransferAction::LogTimeline {
                        message: "Transfer completed".to_owned(),
                        level: LogLevel::Info,
                    },
                );
                actions.push(
                    TransferAction::EmitUiEvent {
                        event_type: "TRANSFER_COMPLETED".to_owned(),
                        data: transfer_id.clone(),
                    },
                );
                (new_state, actions)
            },
            (
                TransferState::Transferring { transfer_id, bytes_transferred, .. },
                TransferEvent::Error { error },
            ) => {
                if error.is_retryable {
                    let new_state = TransferState::Resuming {
                        transfer_id: transfer_id.clone(),
                        from_offset: *bytes_transferred,
                        total_bytes: 0,
                        attempt: 1,
                    };
                    let mut actions: Vec<TransferAction> = Vec::new();
                    actions.push(
                        TransferAction::ScheduleRetry {
                            delay_ms: 1000,
                            attempt: 1,
                            from_offset: *bytes_transferred,
                        },
                    );
                    actions.push(
                        TransferAction::LogTimeline {
                            message: "Transfer interrupted, retrying".to_owned(),
                            level: LogLevel::Warn,
                        },
                    );
                    actions.push(
                        TransferAction::EmitUiEvent {
                            event_type: "TRANSFER_RETRYING".to_owned(),
                            data: "1".to_owned(),
                        },
                    );
                    (new_state, actions)
                } else {
                    let new_state = TransferState::Failed {
                        transfer_id: transfer_id.clone(),
                        failed_at: now,
                        bytes_at_failure: *bytes_transferred,
                        error: error.clone(),
                    };
                    let mut actions: Vec<TransferAction> = Vec::new();
                    actions.push(
                        TransferAction::NotifyFailed {
                            transfer_id: transfer_id.clone(),
                            error: error.message.clone(),
                            can_retry: false,
                        },
                    );
                    actions.push(
                        TransferAction::LogTimeline {
                            message: "Transfer failed".to_owned(),
                            level: LogLevel::Error,
                        },
                    );
                    actions.push(
                        TransferAction::EmitUiEvent {
                            event_type: "TRANSFER_FAILED".to_owned(),
                            data: error.message.clone(),
                        },
                    );
                    (new_state, actions)
                }
            },
            (
                TransferState::Paused { transfer_id, bytes_transferred, total_bytes, .. },
                TransferEvent::Resume,
            ) => {
                let new_state = TransferState::Resuming {
                    transfer_id: transfer_id.clone(),
                    from_offset: *bytes_transferred,
                    total_bytes: *total_bytes,
                    attempt: 1,
                };
                let mut actions: Vec<TransferAction> = Vec::new();
                actions.push(
                    TransferAction::ResumeTransfer {
                        transfer_id: transfer_id.clone(),
                        from_offset: *bytes_transferred,
                    },
                );
                actions.push(
                    TransferAction::LogTimeline {
                        message: "Resuming transfer".to_owned(),
                        level: LogLevel::Info,
                    },
                );
                (new_state, actions)
            },
            (TransferState::Paused { transfer_id, .. }, TransferEvent::Cancel) => {
                let mut actions: Vec<TransferAction> = Vec::new();
                actions.push(TransferAction::CancelTransfer { transfer_id: transfer_id.clone() });
                actions.push(
                    TransferAction::LogTimeline {
                        message: "Transfer cancelled".to_owned(),
                        level: LogLevel::Info,
                    },
                );
                actions.push(
                    TransferAction::EmitUiEvent {
                        event_type: "TRANSFER_CANCELLED".to_owned(),
                        data: transfer_id.clone(),
                    },
                );
                (TransferState::Idle, actions)
            },
            (
                TransferState::Resuming { transfer_id, from_offset, total_bytes, .. },
                TransferEvent::Ready { total_bytes: new_total },
            ) => {
                let actual_total: u64 = if *total_bytes > 0 {
                    *total_bytes
                } else {
                    *new_total
                };
                let new_state = TransferState::Transferring {
                    transfer_id: transfer_id.clone(),
                    started_at: now,
                    bytes_transferred: *from_offset,
                    total_bytes: actual_total,
                    speed_bps: 0,
                };
                let mut actions: Vec<TransferAction> = Vec::new();
                actions.push(
                    TransferAction::LogTimeline {
                        message: "Transfer resumed".to_owned(),
                        level: LogLevel::Info,
                    },
                );
                actions.push(
                    TransferAction::EmitUiEvent {
                        event_type: "TRANSFER_RESUMED".to_owned(),
                        data: u64_to_string(*from_offset),
                    },
                );
                (new_state, actions)
            },
            (
                TransferState::Resuming { transfer_id, from_offset, total_bytes, attempt },
                TransferEvent::Error { error },
            ) => {
                if *attempt < RESUME_ATTEMPT_CEILING && error.is_retryable {
                    let new_state = TransferState::Resuming {
                        transfer_id: transfer_id.clone(),
                        from_offset: *from_offset,
                        total_bytes: *total_bytes,
                        attempt: *attempt + 1,
                    };
                    let delay: u64 = if *attempt == 1 {
                        2000
                    } else {
                        4000
                    };
                    let mut actions: Vec<TransferAction> = Vec::new();
                    actions.push(
                        TransferAction::ScheduleRetry {
                            delay_ms: delay,
                            attempt: *attempt + 1,
                            from_offset: *from_offset,
                        },
                    );
                    actions.push(
                        TransferAction::LogTimeline {
                            message: "Resume attempt failed, retrying".to_owned(),
                            level: LogLevel::Warn,
                        },
                    );
                    (new_state, actions)
                } else {
                    let new_state = TransferState::Failed {
                        transfer_id: transfer_id.clone(),
                        failed_at: now,
                        bytes_at_failure: *from_offset,
                        error: error.clone(),
                    };
                    let mut actions: Vec<TransferAction> = Vec::new();
                    actions.push(
                        TransferAction::NotifyFailed {
                            transfer_id: transfer_id.clone(),
                            error: error.message.clone(),
                            can_retry: error.is_retryable,
                        },
                    );
                    actions.push(
                        TransferAction::LogTimeline {
                            message: "Transfer failed after max retries".to_owned(),
                            level: LogLevel::Error,
                        },
                    );
                    actions.push(
                        TransferAction::EmitUiEvent {
                            event_type: "TRANSFER_FAILED".to_owned(),
                            data: error.message.clone(),
                        },
                    );
                    (new_state, actions)
                }
            },
            (
                TransferState::Failed { transfer_id, bytes_at_failure, error, .. },
                TransferEvent::Retry { url },
            ) => {
                if error.is_retryable && *bytes_at_failure > 0 {
                    let new_state = TransferState::Resuming {
                        transfer_id: transfer_id.clone(),
                        from_offset: *bytes_at_failure,
                        total_bytes: 0,
                        attempt: 1,
                    };
                    let mut actions: Vec<TransferAction> = Vec::new();
                    actions.push(
                        TransferAction::StartTransfer {
                            transfer_id: transfer_id.clone(),
                            url: url.clone(),
                            offset: *bytes_at_failure,
                        },
                    );
                    actions.push(
                        TransferAction::LogTimeline {
                            message: "Manual retry of transfer".to_owned(),
                            level: LogLevel::Info,
                        },
                    );
                    (new_state, actions)
                } else {
                    return Err(
                        StateError::InvalidTransition {
                            from: self.kind().name(),
                            event: event.name(),
                        },
                    );
                }
            },
            (TransferState::Failed { .. }, TransferEvent::Reset) => {
                let mut actions: Vec<TransferAction> = Vec::new();
                actions.push(
                    TransferAction::LogTimeline {
                        message: "Transfer state reset to Idle".to_owned(),
                        level: LogLevel::Info,
                    },
                );
                (TransferState::Idle, actions)
            },
            (TransferState::Completed { .. }, TransferEvent::Reset) => {
                let mut actions: Vec<TransferAction> = Vec::new();
                actions.push(
                    TransferAction::LogTimeline {
                        message: "Transfer state reset to Idle".to_owned(),
                        level: LogLevel::Info,
                    },
                );
                (TransferState::Idle, actions)
            },
            _ => {
                return Err(
                    StateError::InvalidTransition {
                        from: self.kind().name(),
                        event: event.name(),
                    },
                );
            },
        };
        let actions_produced = xfer_action_names(&actions);
        let timeline_entry = TimelineEntry {
            timestamp: now,
            sequence,
            event_type: event.name(),
            from_state: self.kind().name(),
            to_state: new_state.kind().name(),
            actions_produced,
            data: None,
        };
        Ok(TransitionResult { new_state, actions, timeline_entry })
    }

    /// Process one event against this state, timestamping with the current
    /// wall clock. The outcome is pinned by [`xfer_result_ok`] for some
    /// timestamp; everything but the time-stamped fields is independent of
    /// which one.
    pub fn transition(&self, event: TransferEvent, sequence: u64) -> (r: Result<
        TransitionResult<TransferState, TransferAction>,
        StateError,
    >)
        ensures
            r is Ok <==> xfer_valid(*self, event),
            r matches Ok(tr) ==> exists|now: i64|
                xfer_result_ok(*self, event, sequence, now, tr),
            r matches Err(err) ==> err matches StateError::InvalidTransition { from, event: ev }
                && from@ == xfer_kind_name(xfer_kind(*self)) && ev@ == xfer_event_name(event),
    {
        let now = crate::clock::current_timestamp();
        let r = self.transition_at(event, sequence, now);
        proof {
            if r is Ok {
                assert(xfer_result_ok(*self, event, sequence, now, r->Ok_0));
            }
        }
        r
    }
}

} // verus!
