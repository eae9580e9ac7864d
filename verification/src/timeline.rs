//! Bounded execution trace.
//!
//! Every accepted transition of either state machine yields one
//! [`TimelineEntry`]; a [`Timeline`] keeps the most recent entries in a
//! bounded first-in-first-out buffer and hands out the strictly increasing
//! sequence numbers that order entries from interleaved machines.

use crate::text::{
    append_json_string, append_json_string_array, i64_to_string, push_char, spec_i64_string,
    spec_json_string, spec_json_string_array, spec_u64_string, u64_to_string,
};
use std::collections::VecDeque;
use vstd::prelude::*;
use vstd::string::StringExecFns;

verus! {

/// Severity attached to a log action.
#[derive(Debug, Clone, Copy, PartialEq, Eq, Structural)]
pub enum LogLevel {
    Debug,
    Info,
    Warn,
    Error,
}

/// One recorded transition: which event arrived, which states it connected,
/// and the names of the actions it produced. Immutable once recorded.
#[derive(Debug)]
pub struct TimelineEntry {
    pub timestamp: i64,
    pub sequence: u64,
    pub event_type: String,
    pub from_state: String,
    pub to_state: String,
    pub actions_produced: Vec<String>,
    pub data: Option<String>,
}

/// Field-by-field agreement of two entries, with the action names compared
/// as sequences.
pub open spec fn entry_equiv(a: TimelineEntry, b: TimelineEntry) -> bool {
    &&& a.timestamp == b.timestamp
    &&& a.sequence == b.sequence
    &&& a.event_type == b.event_type
    &&& a.from_state == b.from_state
    &&& a.to_state == b.to_state
    &&& a.actions_produced@ == b.actions_produced@
    &&& a.data == b.data
}

impl Clone for TimelineEntry {
    fn clone(&self) -> (res: Self)
        ensures
            entry_equiv(*self, res),
    {
        TimelineEntry {
            timestamp: self.timestamp,
            sequence: self.sequence,
            event_type: self.event_type.clone(),
            from_state: self.from_state.clone(),
            to_state: self.to_state.clone(),
            actions_produced: self.actions_produced.clone(),
            data: self.data.clone(),
        }
    }
}

/// The JSON object rendering of one entry.
pub open spec fn spec_entry_json(e: TimelineEntry) -> Seq<char> {
    "{\"timestamp\":"@ + spec_i64_string(e.timestamp as int) + ",\"sequence\":"@
        + spec_u64_string(e.sequence as int) + ",\"event_type\":"@ + spec_json_string(
        e.event_type@,
    ) + ",\"from_state\":"@ + spec_json_string(e.from_state@) + ",\"to_state\":"@
        + spec_json_string(e.to_state@) + ",\"actions_produced\":"@ + spec_json_string_array(
        e.actions_produced@,
    ) + ",\"data\":"@ + (match e.data {
        Some(d) => spec_json_string(d@),
        None => "null"@,
    }) + seq!['}']
}

/// The comma-joined JSON objects of the entries, without brackets.
pub open spec fn spec_joined_entries(es: Seq<TimelineEntry>) -> Seq<char>
    decreases es.len(),
{
    if es.len() == 0 {
        Seq::empty()
    } else if es.len() == 1 {
        spec_entry_json(es[0])
    } else {
        spec_joined_entries(es.drop_last()) + seq![','] + spec_entry_json(es.last())
    }
}

/// The JSON array rendering of a whole trace.
pub open spec fn spec_timeline_json(es: Seq<TimelineEntry>) -> Seq<char> {
    seq!['['] + spec_joined_entries(es) + seq![']']
}

/// Append the JSON object for one entry.
fn append_entry_json(out: &mut String, e: &TimelineEntry)
    ensures
        final(out)@ == old(out)@ + spec_entry_json(*e),
{
    out.append("{\"timestamp\":");
    let ts = i64_to_string(e.timestamp);
    out.append(ts.as_str());
    out.append(",\"sequence\":");
    let sq = u64_to_string(e.sequence);
    out.append(sq.as_str());
    out.append(",\"event_type\":");
    append_json_string(out, e.event_type.as_str());
    out.append(",\"from_state\":");
    append_json_string(out, e.from_state.as_str());
    out.append(",\"to_state\":");
    append_json_string(out, e.to_state.as_str());
    out.append(",\"actions_produced\":");
    append_json_string_array(out, &e.actions_produced);
    out.append(",\"data\":");
    match &e.data {
        Some(d) => append_json_string(out, d.as_str()),
        None => out.append("null"),
    }
    push_char(out, '}');
    proof {
        assert(final(out)@ =~= old(out)@ + spec_entry_json(*e));
    }
}

/// Append-only trace with ring-buffer eviction: once `max_entries` is
/// exceeded the oldest entry is dropped.
#[derive(Debug)]
pub struct Timeline {
    entries: VecDeque<TimelineEntry>,
    sequence: u64,
    max_entries: usize,
}

impl Timeline {
    /// The recorded entries, oldest first.
    pub closed spec fn spec_entries(&self) -> Seq<TimelineEntry> {
        self.entries@
    }

    /// The last sequence number handed out; 0 before any was.
    pub closed spec fn spec_sequence(&self) -> u64 {
        self.sequence
    }

    /// The capacity fixed at construction.
    pub closed spec fn spec_max_entries(&self) -> usize {
        self.max_entries
    }

    /// The buffer never holds more than the configured capacity.
    pub open spec fn wf(&self) -> bool {
        self.spec_entries().len() <= self.spec_max_entries()
    }

    pub fn new(max_entries: usize) -> (t: Self)
        ensures
            t.spec_entries() == Seq::<TimelineEntry>::empty(),
            t.spec_sequence() == 0,
            t.spec_max_entries() == max_entries,
            t.wf(),
    {
        Timeline { entries: VecDeque::new(), sequence: 0, max_entries }
    }

    /// Append an entry, evicting the oldest one when the capacity is
    /// exceeded. Eviction is the ring-buffer discipline, not an error.
    pub fn record(&mut self, entry: TimelineEntry)
        requires
            old(self).wf(),
        ensures
            final(self).wf(),
            final(self).spec_entries() == if old(self).spec_entries().len()
                < old(self).spec_max_entries() {
                old(self).spec_entries().push(entry)
            } else {
                old(self).spec_entries().push(entry).drop_first()
            },
            final(self).spec_sequence() == old(self).spec_sequence(),
            final(self).spec_max_entries() == old(self).spec_max_entries(),
    {
        self.entries.push_back(entry);
        if self.entries.len() > self.max_entries {
            self.entries.pop_front();
            proof {
                assert(self.entries@ =~= old(self).spec_entries().push(entry).drop_first());
            }
        } else {
            proof {
                assert(self.entries@ =~= old(self).spec_entries().push(entry));
            }
        }
    }

    /// Hand out the next sequence number; strictly increasing across calls.
    pub fn next_sequence(&mut self) -> (seq: u64)
        requires
            old(self).spec_sequence() < u64::MAX,
        ensures
            seq == old(self).spec_sequence() + 1,
            final(self).spec_sequence() == old(self).spec_sequence() + 1,
            final(self).spec_entries() == old(self).spec_entries(),
            final(self).spec_max_entries() == old(self).spec_max_entries(),
    {
        self.sequence = self.sequence + 1;
        self.sequence
    }

    pub fn entries(&self) -> (res: &VecDeque<TimelineEntry>)
        ensures
            res@ == self.spec_entries(),
    {
        &self.entries
    }

    /// A copy of the trace, oldest first.
    pub fn dump(&self) -> (res: Vec<TimelineEntry>)
        ensures
            res@.len() == self.spec_entries().len(),
            forall|i: int|
                0 <= i < res@.len() ==> entry_equiv(self.spec_entries()[i], res@[i]),
    {
        let mut res: Vec<TimelineEntry> = Vec::new();
        let mut i: usize = 0;
        let n = self.entries.len();
        while i < n
            invariant
                i <= n,
                n == self.spec_entries().len(),
                res@.len() == i,
                forall|j: int| 0 <= j < i ==> entry_equiv(self.spec_entries()[j], res@[j]),
            decreases n - i,
        {
            res.push(self.entries[i].clone());
            i = i + 1;
        }
        res
    }

    /// The whole trace as one structured JSON array, for postmortem and
    /// replay.
    pub fn dump_json(&self) -> (res: String)
        ensures
            res@ == spec_timeline_json(self.spec_entries()),
    {
        let mut out = String::new();
        push_char(&mut out, '[');
        let n = self.entries.len();
        let mut i: usize = 0;
        while i < n
            invariant
                i <= n,
                n == self.spec_entries().len(),
                out@ == seq!['['] + spec_joined_entries(self.spec_entries().take(i as int)),
            decreases n - i,
        {
            if i > 0 {
                push_char(&mut out, ',');
            }
            append_entry_json(&mut out, &self.entries[i]);
            proof {
                assert(self.spec_entries().take(i as int + 1).drop_last() =~= self.spec_entries()
                    .take(i as int));
                assert(self.spec_entries().take(i as int + 1).last() == self.spec_entries()[
                    i as int]);
                assert(out@ =~= seq!['['] + spec_joined_entries(
                    self.spec_entries().take(i as int + 1),
                ));
            }
            i = i + 1;
        }
        push_char(&mut out, ']');
        proof {
            assert(self.spec_entries().take(n as int) =~= self.spec_entries());
            assert(out@ =~= spec_timeline_json(self.spec_entries()));
        }
        out
    }

    pub fn clear(&mut self)
        ensures
            final(self).spec_entries() == Seq::<TimelineEntry>::empty(),
            final(self).spec_sequence() == old(self).spec_sequence(),
            final(self).spec_max_entries() == old(self).spec_max_entries(),
            final(self).wf(),
    {
        self.entries.clear();
    }
}

} // verus!
