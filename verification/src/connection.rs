//! Connection state machine.
//!
//! A pure function from `(state, event)` to a replacement state plus an
//! ordered list of actions for an external executor. It encodes the whole
//! connect / reconnect / heartbeat lifecycle: a linear backoff with a hard
//! ceiling of three attempts for the initial connect phase, and a longer
//! backoff with a ceiling of five attempts for reconnection after a
//! previously good connection was lost.

use crate::engine::{StateError, TransitionResult};
use crate::timeline::{LogLevel, TimelineEntry};
use vstd::prelude::*;

verus! {

/// Side effect owed to the executor; the machine never performs it itself.
#[derive(Debug, Clone)]
pub enum ConnectionAction {
    /// Start a connection attempt to the device.
    StartConnection { device_id: String, attempt: u32 },
    /// Schedule a reconnection attempt after the given delay.
    ScheduleReconnect { delay_ms: u64, attempt: u32 },
    /// Start the periodic heartbeat.
    StartHeartbeat { interval_ms: u64 },
    /// Stop the periodic heartbeat.
    StopHeartbeat,
    /// Emit an event to the UI layer.
    EmitUiEvent { event_type: String, data: String },
    /// Log a line for the timeline.
    LogTimeline { message: String, level: LogLevel },
    /// Notify that the connection failed permanently.
    NotifyConnectionFailed { reason: String },
    /// Release resources held for the attempt.
    Cleanup,
}

/// The connection lifecycle state; replaced wholesale on every accepted
/// transition.
#[derive(Debug, Clone)]
pub enum ConnectionState {
    Disconnected,
    Connecting { device_id: String, attempt: u32, started_at: i64 },
    Connected { device_id: String, connected_at: i64, last_heartbeat: i64 },
    Reconnecting { device_id: String, attempt: u32, last_connected_at: i64 },
    Failed { device_id: String, reason: String, failed_at: i64 },
}

/// The variant of a [`ConnectionState`], without its payload.
#[derive(Debug, Clone, Copy, PartialEq, Eq, Structural)]
pub enum ConnectionStateKind {
    Disconnected,
    Connecting,
    Connected,
    Reconnecting,
    Failed,
}

/// Input to a connection transition, raised by the transport, the heartbeat
/// timer, or the UI.
#[derive(Debug, Clone)]
pub enum ConnectionEvent {
    Connect { device_id: String },
    Disconnect,
    Cancel,
    ConnectionEstablished,
    ConnectionLost,
    ConnectionFailed { reason: String },
    HeartbeatReceived,
    Reset,
}

/// Hard ceiling of attempts for the initial connect phase.
pub const CONNECT_ATTEMPT_CEILING: u32 = 3;

/// Hard ceiling of attempts for the reconnect phase.
pub const RECONNECT_ATTEMPT_CEILING: u32 = 5;

/// The variant of a state.
pub open spec fn conn_kind(s: ConnectionState) -> ConnectionStateKind {
    match s {
        ConnectionState::Disconnected => ConnectionStateKind::Disconnected,
        ConnectionState::Connecting { .. } => ConnectionStateKind::Connecting,
        ConnectionState::Connected { .. } => ConnectionStateKind::Connected,
        ConnectionState::Reconnecting { .. } => ConnectionStateKind::Reconnecting,
        ConnectionState::Failed { .. } => ConnectionStateKind::Failed,
    }
}

/// The name of a state variant, as it appears in timeline entries.
pub open spec fn conn_kind_name(k: ConnectionStateKind) -> Seq<char> {
    match k {
        ConnectionStateKind::Disconnected => "Disconnected"@,
        ConnectionStateKind::Connecting => "Connecting"@,
        ConnectionStateKind::Connected => "Connected"@,
        ConnectionStateKind::Reconnecting => "Reconnecting"@,
        ConnectionStateKind::Failed => "Failed"@,
    }
}

/// The name of an event variant, as it appears in timeline entries.
pub open spec fn conn_event_name(e: ConnectionEvent) -> Seq<char> {
    match e {
        ConnectionEvent::Connect { .. } => "Connect"@,
        ConnectionEvent::Disconnect => "Disconnect"@,
        ConnectionEvent::Cancel => "Cancel"@,
        ConnectionEvent::ConnectionEstablished => "ConnectionEstablished"@,
        ConnectionEvent::ConnectionLost => "ConnectionLost"@,
        ConnectionEvent::ConnectionFailed { .. } => "ConnectionFailed"@,
        ConnectionEvent::HeartbeatReceived => "HeartbeatReceived"@,
        ConnectionEvent::Reset => "Reset"@,
    }
}

/// The name of an action variant, as it appears in timeline entries.
pub open spec fn conn_action_name(a: ConnectionAction) -> Seq<char> {
    match a {
        ConnectionAction::StartConnection { .. } => "StartConnection"@,
        ConnectionAction::ScheduleReconnect { .. } => "ScheduleReconnect"@,
        ConnectionAction::StartHeartbeat { .. } => "StartHeartbeat"@,
        ConnectionAction::StopHeartbeat => "StopHeartbeat"@,
        ConnectionAction::EmitUiEvent { .. } => "EmitUiEvent"@,
        ConnectionAction::LogTimeline { .. } => "LogTimeline"@,
        ConnectionAction::NotifyConnectionFailed { .. } => "NotifyConnectionFailed"@,
        ConnectionAction::Cleanup => "Cleanup"@,
    }
}

/// Whether `(s, e)` is one of the defined transition rules. Every other pair
/// is rejected with [`StateError::InvalidTransition`].
pub open spec fn conn_valid(s: ConnectionState, e: ConnectionEvent) -> bool {
    match (s, e) {
        (ConnectionState::Disconnected, ConnectionEvent::Connect { .. }) => true,
        (ConnectionState::Connecting { .. }, ConnectionEvent::ConnectionEstablished) => true,
        (ConnectionState::Connecting { .. }, ConnectionEvent::ConnectionFailed { .. }) => true,
        (ConnectionState::Connecting { .. }, ConnectionEvent::Cancel) => true,
        (ConnectionState::Connected { .. }, ConnectionEvent::ConnectionLost) => true,
        (ConnectionState::Connected { .. }, ConnectionEvent::HeartbeatReceived) => true,
        (ConnectionState::Connected { .. }, ConnectionEvent::Disconnect) => true,
        (ConnectionState::Reconnecting { .. }, ConnectionEvent::ConnectionEstablished) => true,
        (ConnectionState::Reconnecting { .. }, ConnectionEvent::ConnectionFailed { .. }) => true,
        (ConnectionState::Failed { .. }, ConnectionEvent::Reset) => true,
        (ConnectionState::Failed { .. }, ConnectionEvent::Connect { .. }) => true,
        _ => false,
    }
}

/// The replacement state for a valid `(s, e)` pair, with `now` as the
/// timestamp written into time-stamped fields.
pub open spec fn conn_next(s: ConnectionState, e: ConnectionEvent, now: i64) -> ConnectionState
    recommends
        conn_valid(s, e),
{
    match (s, e) {
        (ConnectionState::Disconnected, ConnectionEvent::Connect { device_id }) => {
            ConnectionState::Connecting { device_id, attempt: 1, started_at: now }
        },
        (
            ConnectionState::Connecting { device_id, .. },
            ConnectionEvent::ConnectionEstablished,
        ) => {
            ConnectionState::Connected { device_id, connected_at: now, last_heartbeat: now }
        },
        (
            ConnectionState::Connecting { device_id, attempt, .. },
            ConnectionEvent::ConnectionFailed { reason },
        ) => {
            if attempt < CONNECT_ATTEMPT_CEILING {
                ConnectionState::Connecting {
                    device_id,
                    attempt: (attempt + 1) as u32,
                    started_at: now,
                }
            } else {
                ConnectionState::Failed { device_id, reason, failed_at: now }
            }
        },
        (ConnectionState::Connecting { .. }, ConnectionEvent::Cancel) => {
            ConnectionState::Disconnected
        },
        (
            ConnectionState::Connected { device_id, connected_at, .. },
            ConnectionEvent::ConnectionLost,
        ) => {
            ConnectionState::Reconnecting { device_id, attempt: 1, last_connected_at: connected_at }
        },
        (
            ConnectionState::Connected { device_id, connected_at, .. },
            ConnectionEvent::HeartbeatReceived,
        ) => {
            ConnectionState::Connected { device_id, connected_at, last_heartbeat: now }
        },
        (ConnectionState::Connected { .. }, ConnectionEvent::Disconnect) => {
            ConnectionState::Disconnected
        },
        (
            ConnectionState::Reconnecting { device_id, .. },
            ConnectionEvent::ConnectionEstablished,
        ) => {
            ConnectionState::Connected { device_id, connected_at: now, last_heartbeat: now }
        },
        (
            ConnectionState::Reconnecting { device_id, attempt, .. },
            ConnectionEvent::ConnectionFailed { reason },
        ) => {
            if attempt < RECONNECT_ATTEMPT_CEILING {
                ConnectionState::Reconnecting {
                    device_id,
                    attempt: (attempt + 1) as u32,
                    last_connected_at: now,
                }
            } else {
                ConnectionState::Failed { device_id, reason, failed_at: now }
            }
        },
        (ConnectionState::Failed { .. }, ConnectionEvent::Reset) => ConnectionState::Disconnected,
        (
            ConnectionState::Failed { device_id, .. },
            ConnectionEvent::Connect { device_id: new_device_id },
        ) => {
            let target = if new_device_id@.len() == 0 {
                device_id
            } else {
                new_device_id
            };
            ConnectionState::Connecting { device_id: target, attempt: 1, started_at: now }
        },
        _ => s,
    }
}

/// A log action with the given constant message and level.
pub open spec fn is_log(a: ConnectionAction, msg: Seq<char>, lvl: LogLevel) -> bool {
    a matches ConnectionAction::LogTimeline { message, level } && message@ == msg && level == lvl
}

/// A UI event action carrying a value taken from the state or event.
pub open spec fn is_emit(a: ConnectionAction, et: Seq<char>, data: String) -> bool {
    a matches ConnectionAction::EmitUiEvent { event_type, data: d } && event_type@ == et && d
        == data
}

/// A UI event action carrying a constant payload.
pub open spec fn is_emit_lit(a: ConnectionAction, et: Seq<char>, data: Seq<char>) -> bool {
    a matches ConnectionAction::EmitUiEvent { event_type, data: d } && event_type@ == et && d@
        == data
}

/// The exact action list owed for a valid `(s, e)` pair, in order.
pub open spec fn conn_actions_ok(
    s: ConnectionState,
    e: ConnectionEvent,
    acts: Seq<ConnectionAction>,
) -> bool
    recommends
        conn_valid(s, e),
{
    match (s, e) {
        (ConnectionState::Disconnected, ConnectionEvent::Connect { device_id }) => {
            &&& acts.len() == 3
            &&& acts[0] == (ConnectionAction::StartConnection { device_id, attempt: 1 })
            &&& is_log(acts[1], "Starting connection"@, LogLevel::Info)
            &&& is_emit(acts[2], "CONNECTING"@, device_id)
        },
        (
            ConnectionState::Connecting { device_id, .. },
            ConnectionEvent::ConnectionEstablished,
        ) => {
            &&& acts.len() == 3
            &&& acts[0] == (ConnectionAction::StartHeartbeat { interval_ms: 5000 })
            &&& is_log(acts[1], "Connected"@, LogLevel::Info)
            &&& is_emit(acts[2], "CONNECTED"@, device_id)
        },
        (
            ConnectionState::Connecting { attempt, .. },
            ConnectionEvent::ConnectionFailed { reason },
        ) => {
            if attempt < CONNECT_ATTEMPT_CEILING {
                &&& acts.len() == 2
                &&& acts[0] == (ConnectionAction::ScheduleReconnect {
                    delay_ms: (attempt * 1000) as u64,
                    attempt: (attempt + 1) as u32,
                })
                &&& is_log(acts[1], "Connection attempt failed, retrying"@, LogLevel::Warn)
            } else {
                &&& acts.len() == 4
                &&& acts[0] == (ConnectionAction::NotifyConnectionFailed { reason })
                &&& is_log(acts[1], "Connection failed permanently"@, LogLevel::Error)
                &&& is_emit(acts[2], "CONNECTION_FAILED"@, reason)
                &&& acts[3] == ConnectionAction::Cleanup
            }
        },
        (ConnectionState::Connecting { .. }, ConnectionEvent::Cancel) => {
            &&& acts.len() == 3
            &&& acts[0] == ConnectionAction::Cleanup
            &&& is_log(acts[1], "Connection cancelled by user"@, LogLevel::Info)
            &&& is_emit_lit(acts[2], "DISCONNECTED"@, "cancelled"@)
        },
        (ConnectionState::Connected { device_id, .. }, ConnectionEvent::ConnectionLost) => {
            &&& acts.len() == 4
            &&& acts[0] == ConnectionAction::StopHeartbeat
            &&& acts[1] == (ConnectionAction::ScheduleReconnect { delay_ms: 1000, attempt: 1 })
            &&& is_log(acts[2], "Connection lost, starting reconnection"@, LogLevel::Warn)
            &&& is_emit(acts[3], "RECONNECTING"@, device_id)
        },
        (ConnectionState::Connected { .. }, ConnectionEvent::HeartbeatReceived) => {
            &&& acts.len() == 1
            &&& is_log(acts[0], "Heartbeat received"@, LogLevel::Debug)
        },
        (ConnectionState::Connected { .. }, ConnectionEvent::Disconnect) => {
            &&& acts.len() == 4
            &&& acts[0] == ConnectionAction::StopHeartbeat
            &&& acts[1] == ConnectionAction::Cleanup
            &&& is_log(acts[2], "Disconnected by user"@, LogLevel::Info)
            &&& is_emit_lit(acts[3], "DISCONNECTED"@, "user_requested"@)
        },
        (
            ConnectionState::Reconnecting { device_id, .. },
            ConnectionEvent::ConnectionEstablished,
        ) => {
            &&& acts.len() == 3
            &&& acts[0] == (ConnectionAction::StartHeartbeat { interval_ms: 5000 })
            &&& is_log(acts[1], "Reconnected successfully"@, LogLevel::Info)
            &&& is_emit(acts[2], "RECONNECTED"@, device_id)
        },
        (
            ConnectionState::Reconnecting { device_id, attempt, .. },
            ConnectionEvent::ConnectionFailed { reason },
        ) => {
            if attempt < RECONNECT_ATTEMPT_CEILING {
                &&& acts.len() == 3
                &&& acts[0] == (ConnectionAction::ScheduleReconnect {
                    delay_ms: (attempt * 2000) as u64,
                    attempt: (attempt + 1) as u32,
                })
                &&& is_log(acts[1], "Reconnect attempt failed, retrying"@, LogLevel::Warn)
                &&& is_emit(acts[2], "RECONNECTING"@, device_id)
            } else {
                &&& acts.len() == 4
                &&& acts[0] == (ConnectionAction::NotifyConnectionFailed { reason })
                &&& is_log(acts[1], "Reconnection failed permanently"@, LogLevel::Error)
                &&& is_emit(acts[2], "CONNECTION_FAILED"@, reason)
                &&& acts[3] == ConnectionAction::Cleanup
            }
        },
        (ConnectionState::Failed { .. }, ConnectionEvent::Reset) => {
            &&& acts.len() == 1
            &&& is_log(acts[0], "State reset to Disconnected"@, LogLevel::Info)
        },
        (
            ConnectionState::Failed { device_id, .. },
            ConnectionEvent::Connect { device_id: new_device_id },
        ) => {
            let target = if new_device_id@.len() == 0 {
                device_id
            } else {
                new_device_id
            };
            &&& acts.len() == 2
            &&& acts[0] == (ConnectionAction::StartConnection { device_id: target, attempt: 1 })
            &&& is_log(acts[1], "Retrying connection"@, LogLevel::Info)
        },
        _ => false,
    }
}

/// The timeline entry owed for a transition: the timestamp and sequence
/// handed in, the variant names of the event and the two states, and one
/// name per action, in order.
pub open spec fn conn_entry_ok(
    s: ConnectionState,
    e: ConnectionEvent,
    sequence: u64,
    now: i64,
    entry: TimelineEntry,
    acts: Seq<ConnectionAction>,
) -> bool {
    &&& entry.timestamp == now
    &&& entry.sequence == sequence
    &&& entry.event_type@ == conn_event_name(e)
    &&& entry.from_state@ == conn_kind_name(conn_kind(s))
    &&& entry.to_state@ == conn_kind_name(conn_kind(conn_next(s, e, now)))
    &&& entry.actions_produced@.len() == acts.len()
    &&& forall|i: int|
        0 <= i < acts.len() ==> entry.actions_produced@[i]@ == conn_action_name(acts[i])
    &&& entry.data is None
}

/// Everything a successful transition promises.
pub open spec fn conn_result_ok(
    s: ConnectionState,
    e: ConnectionEvent,
    sequence: u64,
    now: i64,
    tr: TransitionResult<ConnectionState, ConnectionAction>,
) -> bool {
    &&& tr.new_state == conn_next(s, e, now)
    &&& conn_actions_ok(s, e, tr.actions@)
    &&& conn_entry_ok(s, e, sequence, now, tr.timeline_entry, tr.actions@)
}

/// Some element of `acts` is a `StartConnection` with the given attempt.
pub open spec fn has_start_connection(acts: Seq<ConnectionAction>, att: u32) -> bool {
    exists|i: int|
        {
            &&& 0 <= i < acts.len()
            &&& (#[trigger] acts[i]) matches ConnectionAction::StartConnection { attempt, .. }
            &&& attempt == att
        }
}

/// Some element of `acts` is a `ScheduleReconnect` with the given delay and
/// attempt.
pub open spec fn has_schedule_reconnect(acts: Seq<ConnectionAction>, delay: u64, att: u32) -> bool {
    exists|i: int|
        {
            &&& 0 <= i < acts.len()
            &&& (#[trigger] acts[i]) matches ConnectionAction::ScheduleReconnect { delay_ms, attempt }
            &&& delay_ms == delay
            &&& attempt == att
        }
}

/// Some element of `acts` is a `StartHeartbeat` with the given interval.
pub open spec fn has_start_heartbeat(acts: Seq<ConnectionAction>, interval: u64) -> bool {
    exists|i: int|
        {
            &&& 0 <= i < acts.len()
            &&& (#[trigger] acts[i]) matches ConnectionAction::StartHeartbeat { interval_ms }
            &&& interval_ms == interval
        }
}

/// Some element of `acts` is a `StopHeartbeat`.
pub open spec fn has_stop_heartbeat(acts: Seq<ConnectionAction>) -> bool {
    exists|i: int| 0 <= i < acts.len() && (#[trigger] acts[i]) is StopHeartbeat
}

/// Some element of `acts` is a `Cleanup`.
pub open spec fn has_cleanup(acts: Seq<ConnectionAction>) -> bool {
    exists|i: int| 0 <= i < acts.len() && (#[trigger] acts[i]) is Cleanup
}

/// Some element of `acts` is a `NotifyConnectionFailed`.
pub open spec fn has_notify_failed(acts: Seq<ConnectionAction>) -> bool {
    exists|i: int| 0 <= i < acts.len() && (#[trigger] acts[i]) is NotifyConnectionFailed
}

/// Some element of `acts` is a `LogTimeline` at the given level.
pub open spec fn has_log_at(acts: Seq<ConnectionAction>, lvl: LogLevel) -> bool {
    exists|i: int|
        {
            &&& 0 <= i < acts.len()
            &&& (#[trigger] acts[i]) matches ConnectionAction::LogTimeline { level, .. }
            &&& level == lvl
        }
}

/// The named primary action of each defined rule is present in `acts`.
pub open spec fn conn_has_primary(
    s: ConnectionState,
    e: ConnectionEvent,
    acts: Seq<ConnectionAction>,
) -> bool {
    match (s, e) {
        (ConnectionState::Disconnected, ConnectionEvent::Connect { .. }) => has_start_connection(
            acts,
            1,
        ),
        (ConnectionState::Connecting { .. }, ConnectionEvent::ConnectionEstablished) => {
            has_start_heartbeat(acts, 5000)
        },
        (
            ConnectionState::Connecting { attempt, .. },
            ConnectionEvent::ConnectionFailed { .. },
        ) => {
            if attempt < CONNECT_ATTEMPT_CEILING {
                has_schedule_reconnect(acts, (attempt * 1000) as u64, (attempt + 1) as u32)
            } else {
                has_notify_failed(acts) && has_cleanup(acts)
            }
        },
        (ConnectionState::Connecting { .. }, ConnectionEvent::Cancel) => has_cleanup(acts),
        (ConnectionState::Connected { .. }, ConnectionEvent::ConnectionLost) => {
            has_stop_heartbeat(acts) && has_schedule_reconnect(acts, 1000, 1)
        },
        (ConnectionState::Connected { .. }, ConnectionEvent::HeartbeatReceived) => has_log_at(
            acts,
            LogLevel::Debug,
        ),
        (ConnectionState::Connected { .. }, ConnectionEvent::Disconnect) => {
            has_stop_heartbeat(acts) && has_cleanup(acts)
        },
        (ConnectionState::Reconnecting { .. }, ConnectionEvent::ConnectionEstablished) => {
            has_start_heartbeat(acts, 5000)
        },
        (
            ConnectionState::Reconnecting { attempt, .. },
            ConnectionEvent::ConnectionFailed { .. },
        ) => {
            if attempt < RECONNECT_ATTEMPT_CEILING {
                has_schedule_reconnect(acts, (attempt * 2000) as u64, (attempt + 1) as u32)
            } else {
                has_notify_failed(acts) && has_cleanup(acts)
            }
        },
        (ConnectionState::Failed { .. }, ConnectionEvent::Reset) => has_log_at(
            acts,
            LogLevel::Info,
        ),
        (ConnectionState::Failed { .. }, ConnectionEvent::Connect { .. }) => has_start_connection(
            acts,
            1,
        ),
        _ => true,
    }
}

/// Every defined rule produces a non-empty action list that contains at
/// least the primary action named for it.
pub proof fn lemma_conn_valid_has_primary_action(
    s: ConnectionState,
    e: ConnectionEvent,
    acts: Seq<ConnectionAction>,
)
    requires
        conn_valid(s, e),
        conn_actions_ok(s, e, acts),
    ensures
        acts.len() > 0,
        conn_has_primary(s, e, acts),
{
}

/// Connect-retry ceiling: from `Disconnected`, a `Connect` followed by three
/// consecutive `ConnectionFailed` events ends in `Failed`; after one or two
/// failures the machine is still `Connecting`, with the attempt count
/// incremented each time.
pub proof fn lemma_connect_retry_ceiling(
    device_id: String,
    r1: String,
    r2: String,
    r3: String,
    t0: i64,
    t1: i64,
    t2: i64,
    t3: i64,
)
    ensures
        ({
            let s1 = conn_next(
                ConnectionState::Disconnected,
                ConnectionEvent::Connect { device_id },
                t0,
            );
            let s2 = conn_next(s1, ConnectionEvent::ConnectionFailed { reason: r1 }, t1);
            let s3 = conn_next(s2, ConnectionEvent::ConnectionFailed { reason: r2 }, t2);
            let s4 = conn_next(s3, ConnectionEvent::ConnectionFailed { reason: r3 }, t3);
            &&& s1 matches ConnectionState::Connecting { attempt, .. } && attempt == 1
            &&& s2 matches ConnectionState::Connecting { attempt, .. } && attempt == 2
            &&& s3 matches ConnectionState::Connecting { attempt, .. } && attempt == 3
            &&& s4 is Failed
        }),
{
}

/// Below the connect ceiling, a failure always yields `Connecting` again
/// with the attempt count incremented, never `Failed`.
pub proof fn lemma_connect_retry_below_ceiling(s: ConnectionState, reason: String, now: i64)
    requires
        s matches ConnectionState::Connecting { attempt, .. } && attempt
            < CONNECT_ATTEMPT_CEILING,
    ensures
        conn_valid(s, ConnectionEvent::ConnectionFailed { reason }),
        ({
            let n = conn_next(s, ConnectionEvent::ConnectionFailed { reason }, now);
            &&& n matches ConnectionState::Connecting { attempt, device_id, .. } && attempt == s
                ->Connecting_attempt + 1 && device_id == s->Connecting_device_id
            &&& !(n is Failed)
        }),
{
}

/// Reconnect-retry ceiling: from `Connected`, a `ConnectionLost` followed by
/// five consecutive `ConnectionFailed` events ends in `Failed`; after fewer
/// failures the machine is still `Reconnecting`.
pub proof fn lemma_reconnect_retry_ceiling(
    s: ConnectionState,
    r1: String,
    r2: String,
    r3: String,
    r4: String,
    r5: String,
    t0: i64,
    t1: i64,
    t2: i64,
    t3: i64,
    t4: i64,
    t5: i64,
)
    requires
        s is Connected,
    ensures
        ({
            let s1 = conn_next(s, ConnectionEvent::ConnectionLost, t0);
            let s2 = conn_next(s1, ConnectionEvent::ConnectionFailed { reason: r1 }, t1);
            let s3 = conn_next(s2, ConnectionEvent::ConnectionFailed { reason: r2 }, t2);
            let s4 = conn_next(s3, ConnectionEvent::ConnectionFailed { reason: r3 }, t3);
            let s5 = conn_next(s4, ConnectionEvent::ConnectionFailed { reason: r4 }, t4);
            let s6 = conn_next(s5, ConnectionEvent::ConnectionFailed { reason: r5 }, t5);
            &&& s1 matches ConnectionState::Reconnecting { attempt, .. } && attempt == 1
            &&& s2 matches ConnectionState::Reconnecting { attempt, .. } && attempt == 2
            &&& s3 matches ConnectionState::Reconnecting { attempt, .. } && attempt == 3
            &&& s4 matches ConnectionState::Reconnecting { attempt, .. } && attempt == 4
            &&& s5 matches ConnectionState::Reconnecting { attempt, .. } && attempt == 5
            &&& s6 is Failed
        }),
{
}

/// Below the reconnect ceiling, a failure always yields `Reconnecting` again
/// with the attempt count incremented, never `Failed`.
pub proof fn lemma_reconnect_retry_below_ceiling(s: ConnectionState, reason: String, now: i64)
    requires
        s matches ConnectionState::Reconnecting { attempt, .. } && attempt
            < RECONNECT_ATTEMPT_CEILING,
    ensures
        conn_valid(s, ConnectionEvent::ConnectionFailed { reason }),
        ({
            let n = conn_next(s, ConnectionEvent::ConnectionFailed { reason }, now);
            &&& n matches ConnectionState::Reconnecting { attempt, device_id, .. } && attempt == s
                ->Reconnecting_attempt + 1 && device_id == s->Reconnecting_device_id
            &&& !(n is Failed)
        }),
{
}

/// Attempt-counter sanity of a state: within each retry phase the counter
/// starts at 1 and never passes that phase's ceiling.
pub open spec fn conn_state_wf(s: ConnectionState) -> bool {
    match s {
        ConnectionState::Connecting { attempt, .. } => 1 <= attempt <= CONNECT_ATTEMPT_CEILING,
        ConnectionState::Reconnecting { attempt, .. } => 1 <= attempt
            <= RECONNECT_ATTEMPT_CEILING,
        _ => true,
    }
}

/// Attempt-counter sanity is an invariant: the counter resets to 1 only on
/// a fresh `Connect` or on entering reconnection, grows by exactly 1 on
/// each failure below the ceiling, and the phase ends in `Failed` instead
/// of ever passing the ceiling.
pub proof fn lemma_conn_attempt_bounded(s: ConnectionState, e: ConnectionEvent, now: i64)
    requires
        conn_valid(s, e),
        conn_state_wf(s),
    ensures
        conn_state_wf(conn_next(s, e, now)),
{
}

/// A lost connection always enters `Reconnecting` with attempt 1 — never
/// `Disconnected` directly.
pub proof fn lemma_connection_lost_starts_reconnect(s: ConnectionState, now: i64)
    requires
        s is Connected,
    ensures
        conn_valid(s, ConnectionEvent::ConnectionLost),
        ({
            let n = conn_next(s, ConnectionEvent::ConnectionLost, now);
            &&& n matches ConnectionState::Reconnecting { attempt, device_id, .. } && attempt == 1
                && device_id == s->Connected_device_id
            &&& !(n is Disconnected)
        }),
{
}

impl ConnectionStateKind {
    /// The variant name, for timeline entries.
    pub fn name(&self) -> (res: String)
        ensures
            res@ == conn_kind_name(*self),
    {
        match self {
            ConnectionStateKind::Disconnected => "Disconnected".to_owned(),
            ConnectionStateKind::Connecting => "Connecting".to_owned(),
            ConnectionStateKind::Connected => "Connected".to_owned(),
            ConnectionStateKind::Reconnecting => "Reconnecting".to_owned(),
            ConnectionStateKind::Failed => "Failed".to_owned(),
        }
    }
}

impl ConnectionEvent {
    /// The variant name, for timeline entries and error reports.
    pub fn name(&self) -> (res: String)
        ensures
            res@ == conn_event_name(*self),
    {
        match self {
            ConnectionEvent::Connect { .. } => "Connect".to_owned(),
            ConnectionEvent::Disconnect => "Disconnect".to_owned(),
            ConnectionEvent::Cancel => "Cancel".to_owned(),
            ConnectionEvent::ConnectionEstablished => "ConnectionEstablished".to_owned(),
            ConnectionEvent::ConnectionLost => "ConnectionLost".to_owned(),
            ConnectionEvent::ConnectionFailed { .. } => "ConnectionFailed".to_owned(),
            ConnectionEvent::HeartbeatReceived => "HeartbeatReceived".to_owned(),
            ConnectionEvent::Reset => "Reset".to_owned(),
        }
    }
}

impl ConnectionAction {
    /// The variant name, for timeline entries.
    pub fn name(&self) -> (res: String)
        ensures
            res@ == conn_action_name(*self),
    {
        match self {
            ConnectionAction::StartConnection { .. } => "StartConnection".to_owned(),
            ConnectionAction::ScheduleReconnect { .. } => "ScheduleReconnect".to_owned(),
            ConnectionAction::StartHeartbeat { .. } => "StartHeartbeat".to_owned(),
            ConnectionAction::StopHeartbeat => "StopHeartbeat".to_owned(),
            ConnectionAction::EmitUiEvent { .. } => "EmitUiEvent".to_owned(),
            ConnectionAction::LogTimeline { .. } => "LogTimeline".to_owned(),
            ConnectionAction::NotifyConnectionFailed { .. } => "NotifyConnectionFailed".to_owned(),
            ConnectionAction::Cleanup => "Cleanup".to_owned(),
        }
    }
}

/// One name per action, in order.
fn conn_action_names(v: &Vec<ConnectionAction>) -> (res: Vec<String>)
    ensures
        res@.len() == v@.len(),
        forall|i: int| 0 <= i < v@.len() ==> res@[i]@ == conn_action_name(v@[i]),
{
    let mut res: Vec<String> = Vec::new();
    let mut i: usize = 0;
    while i < v.len()
        invariant
            i <= v@.len(),
            res@.len() == i,
            forall|j: int| 0 <= j < i ==> res@[j]@ == conn_action_name(v@[j]),
        decreases v@.len() - i,
    {
        res.push(v[i].name());
        i = i + 1;
    }
    res
}

impl Default for ConnectionState {
    fn default() -> (s: Self)
        ensures
            s == ConnectionState::Disconnected,
    {
        ConnectionState::Disconnected
    }
}

impl ConnectionState {
    /// The variant of this state.
    pub fn kind(&self) -> (k: ConnectionStateKind)
        ensures
            k == conn_kind(*self),
    {
        match self {
            ConnectionState::Disconnected => ConnectionStateKind::Disconnected,
            ConnectionState::Connecting { .. } => ConnectionStateKind::Connecting,
            ConnectionState::Connected { .. } => ConnectionStateKind::Connected,
            ConnectionState::Reconnecting { .. } => ConnectionStateKind::Reconnecting,
            ConnectionState::Failed { .. } => ConnectionStateKind::Failed,
        }
    }

    /// Process one event against this state, with `now` as the timestamp
    /// written into the replacement state and the timeline entry.
    ///
    /// Returns `Ok` exactly on the defined `(state, event)` pairs, with the
    /// replacement state, the action list, and the timeline entry all pinned
    /// by [`conn_result_ok`]; every other pair yields
    /// [`StateError::InvalidTransition`] naming the state and the event.
    pub fn transition_at(&self, event: ConnectionEvent, sequence: u64, now: i64) -> (r: Result<
        TransitionResult<ConnectionState, ConnectionAction>,
        StateError,
    >)
        ensures
            r is Ok <==> conn_valid(*self, event),
            r matches Ok(tr) ==> conn_result_ok(*self, event, sequence, now, tr),
            r matches Err(err) ==> err matches StateError::InvalidTransition { from, event: ev }
                && from@ == conn_kind_name(conn_kind(*self)) && ev@ == conn_event_name(event),
    {
        let (new_state, actions): (ConnectionState, Vec<ConnectionAction>) = match (
            self,
            &event,
        ) {
            (ConnectionState::Disconnected, ConnectionEvent::Connect { device_id }) => {
                let new_state = ConnectionState::Connecting {
                    device_id: device_id.clone(),
                    attempt: 1,
                    started_at: now,
                };
                let mut actions: Vec<ConnectionAction> = Vec::new();
                actions.push(
                    ConnectionAction::StartConnection { device_id: device_id.clone(), attempt: 1 },
                );
                actions.push(
                    ConnectionAction::LogTimeline {
                        message: "Starting connection".to_owned(),
                        level: LogLevel::Info,
                    },
                );
                actions.push(
                    ConnectionAction::EmitUiEvent {
                        event_type: "CONNECTING".to_owned(),
                        data: device_id.clone(),
                    },
                );
                (new_state, actions)
            },
            (
                ConnectionState::Connecting { device_id, .. },
                ConnectionEvent::ConnectionEstablished,
            ) => {
                let new_state = ConnectionState::Connected {
                    device_id: device_id.clone(),
                    connected_at: now,
                    last_heartbeat: now,
                };
                let mut actions: Vec<ConnectionAction> = Vec::new();
                actions.push(ConnectionAction::StartHeartbeat { interval_ms: 5000 });
                actions.push(
                    ConnectionAction::LogTimeline {
                        message: "Connected".to_owned(),
                        level: LogLevel::Info,
                    },
                );
                actions.push(
                    ConnectionAction::EmitUiEvent {
                        event_type: "CONNECTED".to_owned(),
                        data: device_id.clone(),
                    },
                );
                (new_state, actions)
            },
            (
                ConnectionState::Connecting { device_id, attempt, .. },
                ConnectionEvent::ConnectionFailed { reason },
            ) => {
                if *attempt < CONNECT_ATTEMPT_CEILING {
                    let new_state = ConnectionState::Connecting {
                        device_id: device_id.clone(),
                        attempt: *attempt + 1,
                        started_at: now,
                    };
                    let delay: u64 = (*attempt as u64) * 1000;
                    let mut actions: Vec<ConnectionAction> = Vec::new();
                    actions.push(
                        ConnectionAction::ScheduleReconnect {
                            delay_ms: delay,
                            attempt: *attempt + 1,
                        },
                    );
                    actions.push(
                        ConnectionAction::LogTimeline {
                            message: "Connection attempt failed, retrying".to_owned(),
                            level: LogLevel::Warn,
                        },
                    );
                    (new_state, actions)
                } else {
                    let new_state = ConnectionState::Failed {
                        device_id: device_id.clone(),
                        reason: reason.clone(),
                        failed_at: now,
                    };
                    let mut actions: Vec<ConnectionAction> = Vec::new();
                    actions.push(
                        ConnectionAction::NotifyConnectionFailed { reason: reason.clone() },
                    );
                    actions.push(
                        ConnectionAction::LogTimeline {
                            message: "Connection failed permanently".to_owned(),
                            level: LogLevel::Error,
                        },
                    );
                    actions.push(
                        ConnectionAction::EmitUiEvent {
                            event_type: "CONNECTION_FAILED".to_owned(),
                            data: reason.clone(),
                        },
                    );
                    actions.push(ConnectionAction::Cleanup);
                    (new_state, actions)
                }
            },
            (ConnectionState::Connecting { .. }, ConnectionEvent::Cancel) => {
                let mut actions: Vec<ConnectionAction> = Vec::new();
                actions.push(ConnectionAction::Cleanup);
                actions.push(
                    ConnectionAction::LogTimeline {
                        message: "Connection cancelled by user".to_owned(),
                        level: LogLevel::Info,
                    },
                );
                actions.push(
                    ConnectionAction::EmitUiEvent {
                        event_type: "DISCONNECTED".to_owned(),
                        data: "cancelled".to_owned(),
                    },
                );
                (ConnectionState::Disconnected, actions)
            },
            (
                ConnectionState::Connected { device_id, connected_at, .. },
                ConnectionEvent::ConnectionLost,
            ) => {
                let new_state = ConnectionState::Reconnecting {
                    device_id: device_id.clone(),
                    attempt: 1,
                    last_connected_at: *connected_at,
                };
                let mut actions: Vec<ConnectionAction> = Vec::new();
                actions.push(ConnectionAction::StopHeartbeat);
                actions.push(ConnectionAction::ScheduleReconnect { delay_ms: 1000, attempt: 1 });
                actions.push(
                    ConnectionAction::LogTimeline {
                        message: "Connection lost, starting reconnection".to_owned(),
                        level: LogLevel::Warn,
                    },
                );
                actions.push(
                    ConnectionAction::EmitUiEvent {
                        event_type: "RECONNECTING".to_owned(),
                        data: device_id.clone(),
                    },
                );
                (new_state, actions)
            },
            (
                ConnectionState::Connected { device_id, connected_at, .. },
                ConnectionEvent::HeartbeatReceived,
            ) => {
                let new_state = ConnectionState::Connected {
                    device_id: device_id.clone(),
                    connected_at: *connected_at,
                    last_heartbeat: now,
                };
                let mut actions: Vec<ConnectionAction> = Vec::new();
                actions.push(
                    ConnectionAction::LogTimeline {
                        message: "Heartbeat received".to_owned(),
                        level: LogLevel::Debug,
                    },
                );
                (new_state, actions)
            },
            (ConnectionState::Connected { .. }, ConnectionEvent::Disconnect) => {
                let mut actions: Vec<ConnectionAction> = Vec::new();
                actions.push(ConnectionAction::StopHeartbeat);
                actions.push(ConnectionAction::Cleanup);
                actions.push(
                    ConnectionAction::LogTimeline {
                        message: "Disconnected by user".to_owned(),
                        level: LogLevel::Info,
                    },
                );
                actions.push(
                    ConnectionAction::EmitUiEvent {
                        event_type: "DISCONNECTED".to_owned(),
                        data: "user_requested".to_owned(),
                    },
                );
                (ConnectionState::Disconnected, actions)
            },
            (
                ConnectionState::Reconnecting { device_id, .. },
                ConnectionEvent::ConnectionEstablished,
            ) => {
                let new_state = ConnectionState::Connected {
                    device_id: device_id.clone(),
                    connected_at: now,
                    last_heartbeat: now,
                };
                let mut actions: Vec<ConnectionAction> = Vec::new();
                actions.push(ConnectionAction::StartHeartbeat { interval_ms: 5000 });
                actions.push(
                    ConnectionAction::LogTimeline {
                        message: "Reconnected successfully".to_owned(),
                        level: LogLevel::Info,
                    },
                );
                actions.push(
                    ConnectionAction::EmitUiEvent {
                        event_type: "RECONNECTED".to_owned(),
                        data: device_id.clone(),
                    },
                );
                (new_state, actions)
            },
            (
                ConnectionState::Reconnecting { device_id, attempt, .. },
                ConnectionEvent::ConnectionFailed { reason },
            ) => {
                if *attempt < RECONNECT_ATTEMPT_CEILING {
                    let new_state = ConnectionState::Reconnecting {
                        device_id: device_id.clone(),
                        attempt: *attempt + 1,
                        last_connected_at: now,
                    };
                    let delay: u64 = (*attempt as u64) * 2000;
                    let mut actions: Vec<ConnectionAction> = Vec::new();
                    actions.push(
                        ConnectionAction::ScheduleReconnect {
                            delay_ms: delay,
                            attempt: *attempt + 1,
                        },
                    );
                    actions.push(
                        ConnectionAction::LogTimeline {
                            message: "Reconnect attempt failed, retrying".to_owned(),
                            level: LogLevel::Warn,
                        },
                    );
                    actions.push(
                        ConnectionAction::EmitUiEvent {
                            event_type: "RECONNECTING".to_owned(),
                            data: device_id.clone(),
                        },
                    );
                    (new_state, actions)
                } else {
                    let new_state = ConnectionState::Failed {
                        device_id: device_id.clone(),
                        reason: reason.clone(),
                        failed_at: now,
                    };
                    let mut actions: Vec<ConnectionAction> = Vec::new();
                    actions.push(
                        ConnectionAction::NotifyConnectionFailed { reason: reason.clone() },
                    );
                    actions.push(
                        ConnectionAction::LogTimeline {
                            message: "Reconnection failed permanently".to_owned(),
                            level: LogLevel::Error,
                        },
                    );
                    actions.push(
                        ConnectionAction::EmitUiEvent {
                            event_type: "CONNECTION_FAILED".to_owned(),
                            data: reason.clone(),
                        },
                    );
                    actions.push(ConnectionAction::Cleanup);
                    (new_state, actions)
                }
            },
            (ConnectionState::Failed { .. }, ConnectionEvent::Reset) => {
                let mut actions: Vec<ConnectionAction> = Vec::new();
                actions.push(
                    ConnectionAction::LogTimeline {
                        message: "State reset to Disconnected".to_owned(),
                        level: LogLevel::Info,
                    },
                );
                (ConnectionState::Disconnected, actions)
            },
            (
                ConnectionState::Failed { device_id, .. },
                ConnectionEvent::Connect { device_id: new_device_id },
            ) => {
                let target: String = if new_device_id.as_str().is_empty() {
                    device_id.clone()
                } else {
                    new_device_id.clone()
                };
                let new_state = ConnectionState::Connecting {
                    device_id: target.clone(),
                    attempt: 1,
                    started_at: now,
                };
                let mut actions: Vec<ConnectionAction> = Vec::new();
                actions.push(ConnectionAction::StartConnection { device_id: target, attempt: 1 });
                actions.push(
                    ConnectionAction::LogTimeline {
                        message: "Retrying connection".to_owned(),
                        level: LogLevel::Info,
                    },
                );
                (new_state, actions)
            },
            _ => {
                return Err(
                    StateError::InvalidTransition {
                        from: self.kind().name(),
                        event: event.name(),
                    },
                );
            },
        };
        let actions_produced = conn_action_names(&actions);
        let timeline_entry = TimelineEntry {
            timestamp: now,
            sequence,
            event_type: event.name(),
            from_state: self.kind().name(),
            to_state: new_state.kind().name(),
            actions_produced,
            data: None,
        };
        Ok(TransitionResult { new_state, actions, timeline_entry })
    }

    /// Process one event against this state, timestamping with the current
    /// wall clock. The outcome is pinned by [`conn_result_ok`] for some
    /// timestamp; everything but the time-stamped fields is independent of
    /// which one.
    pub fn transition(&self, event: ConnectionEvent, sequence: u64) -> (r: Result<
        TransitionResult<ConnectionState, ConnectionAction>,
        StateError,
    >)
        ensures
            r is Ok <==> conn_valid(*self, event),
            r matches Ok(tr) ==> exists|now: i64|
                conn_result_ok(*self, event, sequence, now, tr),
            r matches Err(err) ==> err matches StateError::InvalidTransition { from, event: ev }
                && from@ == conn_kind_name(conn_kind(*self)) && ev@ == conn_event_name(event),
    {
        let now = crate::clock::current_timestamp();
        let r = self.transition_at(event, sequence, now);
        proof {
            if r is Ok {
                assert(conn_result_ok(*self, event, sequence, now, r->Ok_0));
            }
        }
        r
    }
}

} // verus!
