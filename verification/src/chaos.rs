//! Fault-injecting harness.
//!
//! Drivers around each state machine that inject three independent fault
//! modes on every simulated chunk — periodic packet drop, probabilistic
//! wrong-offset delivery, and probabilistic mid-transfer disconnect — to
//! exercise the recovery rules. Probabilities are given per mille. This is a
//! test oracle, not a production transport.

use crate::clock::subsec_nanos_now;
use crate::connection::{
    conn_next, conn_valid, ConnectionAction, ConnectionEvent, ConnectionState,
};
use crate::timeline::{Timeline, TimelineEntry};
use crate::transfer::{
    xfer_actions_ok, xfer_next, xfer_valid, TransferAction, TransferError, TransferEvent,
    TransferState,
};
use vstd::prelude::*;

verus! {

/// What the simulated channel did with one chunk.
#[derive(Debug)]
pub enum ChunkResult {
    Success { offset: u64, bytes: u64 },
    Dropped { packet_number: u64 },
    Disconnected { at_offset: u64 },
    WrongOffset { expected: u64, received: u64 },
    Complete { total_bytes: u64 },
}

/// Outcome of one simulated connection attempt.
#[derive(Debug)]
pub enum ConnectionAttemptResult {
    Success { attempt: u32 },
    Failed { attempt: u32, reason: String },
}

/// Outcome of one simulated heartbeat.
#[derive(Debug)]
pub enum HeartbeatResult {
    Success { count: u32 },
    Disconnected { after_heartbeats: u32 },
}

/// A draw from the wall clock's sub-second noise, uniform enough for fault
/// injection; always below 1000.
fn rand_per_mille() -> (r: u64)
    ensures
        r < 1000,
{
    (subsec_nanos_now() as u64) % 1000
}

/// The too-far-behind offset a faulty remote might report.
pub open spec fn wrong_behind(offset: u64, chunk: u64) -> u64 {
    if offset >= chunk * 2 {
        (offset - chunk * 2) as u64
    } else {
        0
    }
}

/// The too-far-ahead offset a faulty remote might report.
pub open spec fn wrong_ahead(offset: u64, chunk: u64) -> u64 {
    if offset + chunk * 3 > u64::MAX {
        u64::MAX
    } else {
        (offset + chunk * 3) as u64
    }
}

/// Fault-injecting driver around the transfer state machine.
pub struct ChaosTransferSimulator {
    state: TransferState,
    timeline: Timeline,
    packet_count: u64,
    drop_every_n: u64,
    wrong_offset_per_mille: u64,
    random_disconnect_per_mille: u64,
    total_bytes: u64,
    current_offset: u64,
    chunk_size: u64,
}

impl ChaosTransferSimulator {
    pub closed spec fn spec_state(&self) -> TransferState {
        self.state
    }

    pub closed spec fn spec_entries(&self) -> Seq<TimelineEntry> {
        self.timeline.spec_entries()
    }

    pub closed spec fn spec_sequence(&self) -> u64 {
        self.timeline.spec_sequence()
    }

    pub closed spec fn spec_max_entries(&self) -> usize {
        self.timeline.spec_max_entries()
    }

    pub closed spec fn spec_packet_count(&self) -> u64 {
        self.packet_count
    }

    pub closed spec fn spec_drop_every(&self) -> u64 {
        self.drop_every_n
    }

    pub closed spec fn spec_wrong_per_mille(&self) -> u64 {
        self.wrong_offset_per_mille
    }

    pub closed spec fn spec_disconnect_per_mille(&self) -> u64 {
        self.random_disconnect_per_mille
    }

    pub closed spec fn spec_total(&self) -> u64 {
        self.total_bytes
    }

    pub closed spec fn spec_offset(&self) -> u64 {
        self.current_offset
    }

    pub closed spec fn spec_chunk_size(&self) -> u64 {
        self.chunk_size
    }

    /// The simulated cursor never passes the end of the transfer, the chunk
    /// size is the fixed default, and the probabilities are per mille.
    pub open spec fn wf(&self) -> bool {
        &&& self.spec_offset() <= self.spec_total()
        &&& self.spec_chunk_size() == 1024
        &&& self.spec_wrong_per_mille() <= 1000
        &&& self.spec_disconnect_per_mille() <= 1000
        &&& self.timeline_wf()
    }

    /// The bounded trace honours its capacity.
    pub closed spec fn timeline_wf(&self) -> bool {
        self.timeline.wf()
    }

    /// A fresh simulator with no faults configured.
    pub fn new(total_bytes: u64) -> (sim: Self)
        ensures
            sim.wf(),
            sim.spec_state() is Idle,
            sim.spec_packet_count() == 0,
            sim.spec_drop_every() == 0,
            sim.spec_wrong_per_mille() == 0,
            sim.spec_disconnect_per_mille() == 0,
            sim.spec_total() == total_bytes,
            sim.spec_offset() == 0,
            sim.spec_sequence() == 0,
            sim.spec_entries().len() == 0,
            sim.spec_max_entries() == 1000,
    {
        ChaosTransferSimulator {
            state: TransferState::Idle,
            timeline: Timeline::new(1000),
            packet_count: 0,
            drop_every_n: 0,
            wrong_offset_per_mille: 0,
            random_disconnect_per_mille: 0,
            total_bytes,
            current_offset: 0,
            chunk_size: 1024,
        }
    }

    /// Drop every `n`-th chunk (0 disables the fault).
    pub fn drop_every(self, n: u64) -> (sim: Self)
        ensures
            sim.spec_drop_every() == n,
            sim.spec_wrong_per_mille() == self.spec_wrong_per_mille(),
            sim.spec_disconnect_per_mille() == self.spec_disconnect_per_mille(),
            sim.spec_state() == self.spec_state(),
            sim.spec_entries() == self.spec_entries(),
            sim.spec_sequence() == self.spec_sequence(),
            sim.spec_max_entries() == self.spec_max_entries(),
            sim.spec_packet_count() == self.spec_packet_count(),
            sim.spec_total() == self.spec_total(),
            sim.spec_offset() == self.spec_offset(),
            sim.spec_chunk_size() == self.spec_chunk_size(),
            self.wf() ==> sim.wf(),
    {
        Self { drop_every_n: n, ..self }
    }

    /// Deliver a wrong offset with the given per-mille probability, clamped
    /// to 1000.
    pub fn wrong_offset_per_mille(self, pm: u64) -> (sim: Self)
        ensures
            sim.spec_wrong_per_mille() == if pm > 1000 {
                1000u64
            } else {
                pm
            },
            sim.spec_drop_every() == self.spec_drop_every(),
            sim.spec_disconnect_per_mille() == self.spec_disconnect_per_mille(),
            sim.spec_state() == self.spec_state(),
            sim.spec_entries() == self.spec_entries(),
            sim.spec_sequence() == self.spec_sequence(),
            sim.spec_max_entries() == self.spec_max_entries(),
            sim.spec_packet_count() == self.spec_packet_count(),
            sim.spec_total() == self.spec_total(),
            sim.spec_offset() == self.spec_offset(),
            sim.spec_chunk_size() == self.spec_chunk_size(),
            self.wf() ==> sim.wf(),
    {
        let clamped: u64 = if pm > 1000 {
            1000
        } else {
            pm
        };
        Self { wrong_offset_per_mille: clamped, ..self }
    }

    /// Disconnect mid-transfer with the given per-mille probability, clamped
    /// to 1000.
    pub fn random_disconnect_per_mille(self, pm: u64) -> (sim: Self)
        ensures
            sim.spec_disconnect_per_mille() == if pm > 1000 {
                1000u64
            } else {
                pm
            },
            sim.spec_drop_every() == self.spec_drop_every(),
            sim.spec_wrong_per_mille() == self.spec_wrong_per_mille(),
            sim.spec_state() == self.spec_state(),
            sim.spec_entries() == self.spec_entries(),
            sim.spec_sequence() == self.spec_sequence(),
            sim.spec_max_entries() == self.spec_max_entries(),
            sim.spec_packet_count() == self.spec_packet_count(),
            sim.spec_total() == self.spec_total(),
            sim.spec_offset() == self.spec_offset(),
            sim.spec_chunk_size() == self.spec_chunk_size(),
            self.wf() ==> sim.wf(),
    {
        let clamped: u64 = if pm > 1000 {
            1000
        } else {
            pm
        };
        Self { random_disconnect_per_mille: clamped, ..self }
    }

    /// The machine state the driver has reached.
    pub fn state(&self) -> (res: &TransferState)
        ensures
            res == self.spec_state(),
    {
        &self.state
    }

    /// The recorded trace.
    pub fn timeline(&self) -> (res: &Timeline)
        ensures
            res.spec_entries() == self.spec_entries(),
    {
        &self.timeline
    }

    /// The recorded trace as one structured JSON array.
    pub fn dump_timeline(&self) -> (res: String)
        ensures
            res@ == crate::timeline::spec_timeline_json(self.spec_entries()),
    {
        self.timeline.dump_json()
    }

    /// Feed one event through the state machine, recording the transition.
    /// An invalid pair is reported as the error message and changes no
    /// state; a valid pair replaces the state exactly as
    /// [`xfer_next`] says, for some timestamp.
    pub fn process_event(&mut self, event: TransferEvent) -> (r: Result<Vec<TransferAction>, String>)
        requires
            old(self).wf(),
            old(self).spec_sequence() < u64::MAX,
        ensures
            final(self).wf(),
            final(self).spec_sequence() == old(self).spec_sequence() + 1,
            final(self).spec_packet_count() == old(self).spec_packet_count(),
            final(self).spec_total() == old(self).spec_total(),
            final(self).spec_offset() == old(self).spec_offset(),
            final(self).spec_drop_every() == old(self).spec_drop_every(),
            final(self).spec_wrong_per_mille() == old(self).spec_wrong_per_mille(),
            final(self).spec_disconnect_per_mille() == old(self).spec_disconnect_per_mille(),
            final(self).spec_max_entries() == old(self).spec_max_entries(),
            r is Ok <==> xfer_valid(old(self).spec_state(), event),
            r matches Err(_) ==> final(self).spec_state() == old(self).spec_state() && final(self).spec_entries() == old(self).spec_entries(),
            r matches Ok(acts) ==> exists|now: i64|
                {
                    &&& final(self).spec_state() == xfer_next(old(self).spec_state(), event, now)
                    &&& xfer_actions_ok(old(self).spec_state(), event, acts@)
                },
            r is Ok ==> final(self).spec_entries().len() == if old(self).spec_entries().len()
                < old(self).spec_max_entries() {
                old(self).spec_entries().len() + 1
            } else {
                old(self).spec_entries().len()
            },
    {
        let seq = self.timeline.next_sequence();
        let now = crate::clock::current_timestamp();
        match self.state.transition_at(event, seq, now) {
            Ok(result) => {
                let crate::engine::TransitionResult { new_state, actions, timeline_entry } =
                    result;
                self.state = new_state;
                self.timeline.record(timeline_entry);
                Ok(actions)
            },
            Err(e) => Err(e.message()),
        }
    }

    /// Simulate receiving one chunk, injecting at most one fault. The
    /// deterministic drop fires exactly on every `drop_every_n`-th packet;
    /// the probabilistic faults report the cursor faithfully and never move
    /// it; only a clean chunk advances the cursor, by one chunk or whatever
    /// remains.
    pub fn receive_chunk(&mut self) -> (r: ChunkResult)
        requires
            old(self).wf(),
            old(self).spec_packet_count() < u64::MAX,
        ensures
            final(self).wf(),
            final(self).spec_packet_count() == old(self).spec_packet_count() + 1,
            final(self).spec_state() == old(self).spec_state(),
            final(self).spec_entries() == old(self).spec_entries(),
            final(self).spec_sequence() == old(self).spec_sequence(),
            final(self).spec_total() == old(self).spec_total(),
            final(self).spec_drop_every() == old(self).spec_drop_every(),
            final(self).spec_wrong_per_mille() == old(self).spec_wrong_per_mille(),
            final(self).spec_disconnect_per_mille() == old(self).spec_disconnect_per_mille(),
            final(self).spec_max_entries() == old(self).spec_max_entries(),
            r is Dropped <==> old(self).spec_drop_every() > 0 && (old(self).spec_packet_count()
                + 1) as u64 % old(self).spec_drop_every() == 0,
            r matches ChunkResult::Dropped { packet_number } ==> packet_number == old(self).spec_packet_count() + 1 && final(self).spec_offset() == old(self).spec_offset(),
            r matches ChunkResult::Disconnected { at_offset } ==> at_offset == old(self).spec_offset() && final(self).spec_offset() == old(self).spec_offset(),
            old(self).spec_disconnect_per_mille() == 0 ==> !(r is Disconnected),
            r matches ChunkResult::WrongOffset { expected, received } ==> expected == old(self).spec_offset() && final(self).spec_offset() == old(self).spec_offset() && (received
                == wrong_behind(old(self).spec_offset(), old(self).spec_chunk_size()) || received
                == wrong_ahead(old(self).spec_offset(), old(self).spec_chunk_size())),
            old(self).spec_wrong_per_mille() == 0 ==> !(r is WrongOffset),
            (r is Success || r is Complete) ==> final(self).spec_offset() == old(self).spec_offset() + (if old(self).spec_chunk_size() <= old(self).spec_total() - old(self).spec_offset() {
                old(self).spec_chunk_size() as int
            } else {
                old(self).spec_total() - old(self).spec_offset()
            }),
            r matches ChunkResult::Complete { total_bytes } ==> total_bytes == old(self).spec_total() && final(self).spec_offset() == old(self).spec_total(),
            r matches ChunkResult::Success { offset, bytes } ==> offset == final(self).spec_offset() && final(self).spec_offset() == old(self).spec_offset() + bytes
                && final(self).spec_offset() < old(self).spec_total(),
    {
        self.packet_count = self.packet_count + 1;
        if self.drop_every_n > 0 && self.packet_count % self.drop_every_n == 0 {
            return ChunkResult::Dropped { packet_number: self.packet_count };
        }
        if self.random_disconnect_per_mille > 0 && rand_per_mille()
            < self.random_disconnect_per_mille {
            return ChunkResult::Disconnected { at_offset: self.current_offset };
        }
        if self.wrong_offset_per_mille > 0 && rand_per_mille() < self.wrong_offset_per_mille {
            let behind: u64 = if self.current_offset >= self.chunk_size * 2 {
                self.current_offset - self.chunk_size * 2
            } else {
                0
            };
            let ahead: u64 = self.current_offset.saturating_add(self.chunk_size * 3);
            let received: u64 = if rand_per_mille() < 500 {
                behind
            } else {
                ahead
            };
            return ChunkResult::WrongOffset { expected: self.current_offset, received };
        }
        let remaining: u64 = self.total_bytes - self.current_offset;
        let bytes_received: u64 = if self.chunk_size <= remaining {
            self.chunk_size
        } else {
            remaining
        };
        self.current_offset = self.current_offset + bytes_received;
        if self.current_offset >= self.total_bytes {
            ChunkResult::Complete { total_bytes: self.total_bytes }
        } else {
            ChunkResult::Success { offset: self.current_offset, bytes: bytes_received }
        }
    }

    /// Rewind the simulated cursor to a known-good offset within the
    /// transfer.
    pub fn resume_from(&mut self, offset: u64)
        requires
            old(self).wf(),
            offset <= old(self).spec_total(),
        ensures
            final(self).wf(),
            final(self).spec_offset() == offset,
            final(self).spec_state() == old(self).spec_state(),
            final(self).spec_entries() == old(self).spec_entries(),
            final(self).spec_sequence() == old(self).spec_sequence(),
            final(self).spec_packet_count() == old(self).spec_packet_count(),
            final(self).spec_total() == old(self).spec_total(),
            final(self).spec_drop_every() == old(self).spec_drop_every(),
            final(self).spec_wrong_per_mille() == old(self).spec_wrong_per_mille(),
            final(self).spec_disconnect_per_mille() == old(self).spec_disconnect_per_mille(),
            final(self).spec_max_entries() == old(self).spec_max_entries(),
    {
        self.current_offset = offset;
    }
}

/// Run a transfer of `total_bytes` for up to `chunks` simulated chunks under
/// all three fault modes, always resuming from the last acknowledged offset
/// after each fault — the recovery discipline an executor is expected to
/// follow. The driver ends with the machine either `Completed` or still in a
/// recoverable state, never in an unrecovered `Failed` state.
pub fn run_chaos_transfer(
    total_bytes: u64,
    chunks: u64,
    drop_every: u64,
    wrong_offset_per_mille: u64,
    disconnect_per_mille: u64,
) -> (sim: ChaosTransferSimulator)
    requires
        chunks <= u64::MAX / 4,
    ensures
        sim.spec_state() is Completed || sim.spec_state() is Transferring,
        !(sim.spec_state() is Failed),
{
    let mut sim = ChaosTransferSimulator::new(total_bytes).drop_every(
        drop_every,
    ).wrong_offset_per_mille(wrong_offset_per_mille).random_disconnect_per_mille(
        disconnect_per_mille,
    );
    let ghost s0 = sim.spec_state();
    let start_event = TransferEvent::Start {
        transfer_id: "chaos".to_owned(),
        url: "chaos://transfer".to_owned(),
        total_bytes,
    };
    let _ = sim.process_event(start_event);
    proof {
        assert(sim.spec_state() is Preparing);
    }
    let ghost s1 = sim.spec_state();
    let _ = sim.process_event(TransferEvent::Ready { total_bytes });
    proof {
        assert(sim.spec_state() is Transferring);
    }
    let mut last_good_offset: u64 = 0;
    let mut done = false;
    let mut i: u64 = 0;
    while i < chunks && !done
        invariant
            sim.wf(),
            i <= chunks,
            chunks <= u64::MAX / 4,
            !done ==> sim.spec_state() is Transferring,
            done ==> sim.spec_state() is Completed,
            last_good_offset <= sim.spec_total(),
            sim.spec_packet_count() == i,
            sim.spec_sequence() as int <= 2 + 2 * i as int,
        decreases chunks - i,
    {
        let ghost pre_state = sim.spec_state();
        match sim.receive_chunk() {
            ChunkResult::Dropped { .. } => {
                let fault = TransferEvent::Error {
                    error: TransferError {
                        code: "PACKET_DROPPED".to_owned(),
                        message: "Simulated packet drop".to_owned(),
                        is_retryable: true,
                    },
                };
                let _ = sim.process_event(fault);
                proof {
                    assert(sim.spec_state() is Resuming);
                }
                let ghost mid_state = sim.spec_state();
                sim.resume_from(last_good_offset);
                let remaining: u64 = sim.total_remaining(last_good_offset);
                let _ = sim.process_event(TransferEvent::Ready { total_bytes: remaining });
                proof {
                    assert(sim.spec_state() is Transferring);
                }
            },
            ChunkResult::Disconnected { .. } => {
                let fault = TransferEvent::Error {
                    error: TransferError {
                        code: "DISCONNECTED".to_owned(),
                        message: "Simulated disconnect".to_owned(),
                        is_retryable: true,
                    },
                };
                let _ = sim.process_event(fault);
                proof {
                    assert(sim.spec_state() is Resuming);
                }
                sim.resume_from(last_good_offset);
                let remaining: u64 = sim.total_remaining(last_good_offset);
                let _ = sim.process_event(TransferEvent::Ready { total_bytes: remaining });
                proof {
                    assert(sim.spec_state() is Transferring);
                }
            },
            ChunkResult::WrongOffset { expected, .. } => {
                sim.resume_from(expected);
            },
            ChunkResult::Success { offset, .. } => {
                last_good_offset = offset;
                let _ = sim.process_event(
                    TransferEvent::Progress { bytes: offset, speed: 1000 },
                );
                proof {
                    assert(sim.spec_state() is Transferring);
                }
            },
            ChunkResult::Complete { .. } => {
                let _ = sim.process_event(TransferEvent::Done);
                proof {
                    assert(sim.spec_state() is Completed);
                }
                done = true;
            },
        }
        i = i + 1;
    }
    sim
}

impl ChaosTransferSimulator {
    /// Bytes left after `offset`, for re-announcing a resumed transfer.
    fn total_remaining(&self, offset: u64) -> (r: u64)
        requires
            offset <= self.spec_total(),
        ensures
            r == self.spec_total() - offset,
    {
        self.total_bytes - offset
    }
}

/// Fault-injecting driver around the connection state machine.
pub struct ChaosConnectionSimulator {
    state: ConnectionState,
    timeline: Timeline,
    connection_attempt: u32,
    fail_first_n_attempts: u32,
    disconnect_after_n_heartbeats: u32,
    heartbeat_count: u32,
}

impl ChaosConnectionSimulator {
    pub closed spec fn spec_state(&self) -> ConnectionState {
        self.state
    }

    pub closed spec fn spec_entries(&self) -> Seq<TimelineEntry> {
        self.timeline.spec_entries()
    }

    pub closed spec fn spec_sequence(&self) -> u64 {
        self.timeline.spec_sequence()
    }

    pub closed spec fn spec_attempt(&self) -> u32 {
        self.connection_attempt
    }

    pub closed spec fn spec_fail_first(&self) -> u32 {
        self.fail_first_n_attempts
    }

    pub closed spec fn spec_disconnect_after(&self) -> u32 {
        self.disconnect_after_n_heartbeats
    }

    pub closed spec fn spec_heartbeats(&self) -> u32 {
        self.heartbeat_count
    }

    /// The bounded trace honours its capacity.
    pub open spec fn wf(&self) -> bool {
        self.timeline_wf()
    }

    /// The bounded trace honours its capacity.
    pub closed spec fn timeline_wf(&self) -> bool {
        self.timeline.wf()
    }

    /// A fresh simulator with no faults configured.
    pub fn new() -> (sim: Self)
        ensures
            sim.wf(),
            sim.spec_state() is Disconnected,
            sim.spec_attempt() == 0,
            sim.spec_fail_first() == 0,
            sim.spec_disconnect_after() == 0,
            sim.spec_heartbeats() == 0,
            sim.spec_sequence() == 0,
            sim.spec_entries().len() == 0,
    {
        ChaosConnectionSimulator {
            state: ConnectionState::Disconnected,
            timeline: Timeline::new(1000),
            connection_attempt: 0,
            fail_first_n_attempts: 0,
            disconnect_after_n_heartbeats: 0,
            heartbeat_count: 0,
        }
    }

    /// Fail the first `n` connection attempts.
    pub fn fail_first_n(self, n: u32) -> (sim: Self)
        ensures
            sim.spec_fail_first() == n,
            sim.spec_disconnect_after() == self.spec_disconnect_after(),
            sim.spec_state() == self.spec_state(),
            sim.spec_entries() == self.spec_entries(),
            sim.spec_sequence() == self.spec_sequence(),
            sim.spec_attempt() == self.spec_attempt(),
            sim.spec_heartbeats() == self.spec_heartbeats(),
            sim.wf() == self.wf(),
    {
        Self { fail_first_n_attempts: n, ..self }
    }

    /// Report a lost connection after `n` heartbeats.
    pub fn disconnect_after_heartbeats(self, n: u32) -> (sim: Self)
        ensures
            sim.spec_disconnect_after() == n,
            sim.spec_fail_first() == self.spec_fail_first(),
            sim.spec_state() == self.spec_state(),
            sim.spec_entries() == self.spec_entries(),
            sim.spec_sequence() == self.spec_sequence(),
            sim.spec_attempt() == self.spec_attempt(),
            sim.spec_heartbeats() == self.spec_heartbeats(),
            sim.wf() == self.wf(),
    {
        Self { disconnect_after_n_heartbeats: n, ..self }
    }

    /// The machine state the driver has reached.
    pub fn state(&self) -> (res: &ConnectionState)
        ensures
            res == self.spec_state(),
    {
        &self.state
    }

    /// The recorded trace.
    pub fn timeline(&self) -> (res: &Timeline)
        ensures
            res.spec_entries() == self.spec_entries(),
    {
        &self.timeline
    }

    /// The recorded trace as one structured JSON array.
    pub fn dump_timeline(&self) -> (res: String)
        ensures
            res@ == crate::timeline::spec_timeline_json(self.spec_entries()),
    {
        self.timeline.dump_json()
    }

    /// Feed one event through the state machine, recording the transition.
    pub fn process_event(&mut self, event: ConnectionEvent) -> (r: Result<
        Vec<ConnectionAction>,
        String,
    >)
        requires
            old(self).wf(),
            old(self).spec_sequence() < u64::MAX,
        ensures
            final(self).wf(),
            final(self).spec_sequence() == old(self).spec_sequence() + 1,
            final(self).spec_attempt() == old(self).spec_attempt(),
            final(self).spec_fail_first() == old(self).spec_fail_first(),
            final(self).spec_disconnect_after() == old(self).spec_disconnect_after(),
            final(self).spec_heartbeats() == old(self).spec_heartbeats(),
            r is Ok <==> conn_valid(old(self).spec_state(), event),
            r matches Err(_) ==> final(self).spec_state() == old(self).spec_state() && final(self).spec_entries() == old(self).spec_entries(),
            r is Ok ==> exists|now: i64|
                final(self).spec_state() == conn_next(old(self).spec_state(), event, now),
    {
        let seq = self.timeline.next_sequence();
        let now = crate::clock::current_timestamp();
        match self.state.transition_at(event, seq, now) {
            Ok(result) => {
                let crate::engine::TransitionResult { new_state, actions, timeline_entry } =
                    result;
                self.state = new_state;
                self.timeline.record(timeline_entry);
                Ok(actions)
            },
            Err(e) => Err(e.message()),
        }
    }

    /// Simulate one connection attempt: the first `fail_first_n_attempts`
    /// fail, every later one succeeds.
    pub fn try_connect(&mut self, _device_id: &str) -> (r: ConnectionAttemptResult)
        requires
            old(self).spec_attempt() < u32::MAX,
        ensures
            final(self).spec_attempt() == old(self).spec_attempt() + 1,
            final(self).spec_state() == old(self).spec_state(),
            final(self).spec_entries() == old(self).spec_entries(),
            final(self).spec_sequence() == old(self).spec_sequence(),
            final(self).spec_fail_first() == old(self).spec_fail_first(),
            final(self).spec_disconnect_after() == old(self).spec_disconnect_after(),
            final(self).spec_heartbeats() == old(self).spec_heartbeats(),
            final(self).wf() == old(self).wf(),
            r matches ConnectionAttemptResult::Failed { attempt, .. } ==> attempt == final(self).spec_attempt() && attempt <= old(self).spec_fail_first(),
            r matches ConnectionAttemptResult::Success { attempt } ==> attempt == final(self).spec_attempt() && attempt > old(self).spec_fail_first(),
    {
        self.connection_attempt = self.connection_attempt + 1;
        if self.connection_attempt <= self.fail_first_n_attempts {
            ConnectionAttemptResult::Failed {
                attempt: self.connection_attempt,
                reason: "Simulated connection failure".to_owned(),
            }
        } else {
            ConnectionAttemptResult::Success { attempt: self.connection_attempt }
        }
    }

    /// Simulate one heartbeat: reports the connection lost once the
    /// configured count is reached.
    pub fn heartbeat(&mut self) -> (r: HeartbeatResult)
        requires
            old(self).spec_heartbeats() < u32::MAX,
        ensures
            final(self).spec_heartbeats() == old(self).spec_heartbeats() + 1,
            final(self).spec_state() == old(self).spec_state(),
            final(self).spec_entries() == old(self).spec_entries(),
            final(self).spec_sequence() == old(self).spec_sequence(),
            final(self).spec_attempt() == old(self).spec_attempt(),
            final(self).spec_fail_first() == old(self).spec_fail_first(),
            final(self).spec_disconnect_after() == old(self).spec_disconnect_after(),
            final(self).wf() == old(self).wf(),
            r is Disconnected <==> old(self).spec_disconnect_after() > 0 && old(self).spec_heartbeats() + 1 >= old(self).spec_disconnect_after(),
            r matches HeartbeatResult::Disconnected { after_heartbeats } ==> after_heartbeats
                == final(self).spec_heartbeats(),
            r matches HeartbeatResult::Success { count } ==> count == final(self).spec_heartbeats(),
    {
        self.heartbeat_count = self.heartbeat_count + 1;
        if self.disconnect_after_n_heartbeats > 0 && self.heartbeat_count
            >= self.disconnect_after_n_heartbeats {
            HeartbeatResult::Disconnected { after_heartbeats: self.heartbeat_count }
        } else {
            HeartbeatResult::Success { count: self.heartbeat_count }
        }
    }

    /// Reset the heartbeat counter.
    pub fn reset_heartbeat(&mut self)
        ensures
            final(self).spec_heartbeats() == 0,
            final(self).spec_state() == old(self).spec_state(),
            final(self).spec_entries() == old(self).spec_entries(),
            final(self).spec_sequence() == old(self).spec_sequence(),
            final(self).spec_attempt() == old(self).spec_attempt(),
            final(self).spec_fail_first() == old(self).spec_fail_first(),
            final(self).spec_disconnect_after() == old(self).spec_disconnect_after(),
            final(self).wf() == old(self).wf(),
    {
        self.heartbeat_count = 0;
    }
}

impl Default for ChaosConnectionSimulator {
    fn default() -> (sim: Self)
        ensures
            sim.wf(),
            sim.spec_state() is Disconnected,
            sim.spec_attempt() == 0,
            sim.spec_fail_first() == 0,
            sim.spec_disconnect_after() == 0,
            sim.spec_heartbeats() == 0,
    {
        ChaosConnectionSimulator::new()
    }
}

} // verus!
