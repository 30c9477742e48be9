//! The process table: one record per process identifier, filled by start
//! and stop notifications.

use vstd::prelude::*;
use std::collections::HashMap;
use crate::time::Instant;

verus! {

broadcast use vstd::std_specs::hash::group_hash_axioms;

/// What has been observed of one process instance.
#[derive(Clone, Debug, PartialEq, Eq)]
pub struct ProcessRecord {
    pub process_name: String,
    pub start_time: Option<Instant>,
    pub stop_time: Option<Instant>,
}

impl ProcessRecord {
    /// A fresh instance, started at `t` and not yet stopped.
    pub open spec fn started(name: String, t: Instant) -> ProcessRecord {
        ProcessRecord { process_name: name, start_time: Some(t), stop_time: None }
    }

    /// The same instance with its stop time set to `t`.
    pub open spec fn stopped_at(self, t: Instant) -> ProcessRecord {
        ProcessRecord { stop_time: Some(t), ..self }
    }

    /// The stop time, as recorded in the record's own stop field.
    pub fn stop(&self) -> (r: Option<Instant>)
        ensures
            r == self.stop_time,
    {
        self.stop_time
    }

    /// The start time.
    pub fn start(&self) -> (r: Option<Instant>)
        ensures
            r == self.start_time,
    {
        self.start_time
    }
}

/// The table after a start of `pid`: a fresh record replaces whatever was
/// there, since an identifier seen again names a new process instance.
pub open spec fn start_applied(
    m: Map<u32, ProcessRecord>,
    pid: u32,
    name: String,
    t: Instant,
) -> Map<u32, ProcessRecord> {
    m.insert(pid, ProcessRecord::started(name, t))
}

/// The table after a stop of `pid`: the record's stop time is set, and an
/// identifier with no record is left without one.
pub open spec fn stop_applied(m: Map<u32, ProcessRecord>, pid: u32, t: Instant) -> Map<
    u32,
    ProcessRecord,
> {
    if m.contains_key(pid) {
        m.insert(pid, m[pid].stopped_at(t))
    } else {
        m
    }
}

/// Mapping from process identifier to the record of its latest instance.
#[derive(Debug)]
pub struct ProcessTable {
    entries: HashMap<u32, ProcessRecord>,
}

impl View for ProcessTable {
    type V = Map<u32, ProcessRecord>;

    closed spec fn view(&self) -> Map<u32, ProcessRecord> {
        self.entries@
    }
}

impl ProcessTable {
    /// An empty table.
    pub fn new() -> (r: ProcessTable)
        ensures
            r@ == Map::<u32, ProcessRecord>::empty(),
    {
        ProcessTable { entries: HashMap::new() }
    }

    /// Records a start of `pid`, replacing any earlier record for it.
    pub fn apply_start(&mut self, pid: u32, name: String, t: Instant)
        ensures
            final(self)@ == start_applied(old(self)@, pid, name, t),
    {
        self.entries.insert(
            pid,
            ProcessRecord { process_name: name, start_time: Some(t), stop_time: None },
        );
    }

    /// Records a stop of `pid`: sets the stop time of its record, and does
    /// nothing where `pid` has no record.
    pub fn apply_stop(&mut self, pid: u32, t: Instant)
        ensures
            final(self)@ == stop_applied(old(self)@, pid, t),
            !old(self)@.contains_key(pid) ==> final(self)@ == old(self)@,
    {
        match self.entries.remove(&pid) {
            Some(rec) => {
                let updated = ProcessRecord { stop_time: Some(t), ..rec };
                self.entries.insert(pid, updated);
                proof {
                    assert(self@ =~= stop_applied(old(self)@, pid, t));
                }
            },
            None => {},
        }
    }

    /// An independent copy of every entry.
    pub fn snapshot(&self) -> (r: ProcessTable)
        ensures
            r@ == self@,
    {
        ProcessTable { entries: self.entries.clone() }
    }

    /// The record held for `pid`, if any.
    pub fn get(&self, pid: u32) -> (r: Option<&ProcessRecord>)
        ensures
            r matches Some(rec) ==> self@.contains_key(pid) && *rec == self@[pid],
            r is None ==> !self@.contains_key(pid),
    {
        self.entries.get(&pid)
    }

    /// Whether `pid` has a record.
    pub fn contains(&self, pid: u32) -> (r: bool)
        ensures
            r == self@.contains_key(pid),
    {
        self.entries.contains_key(&pid)
    }

    /// The number of records.
    pub fn len(&self) -> (r: usize)
        ensures
            r == self@.len(),
    {
        self.entries.len()
    }

    /// Every entry, for a reader that walks them in no particular order.
    pub fn entries(&self) -> (r: &HashMap<u32, ProcessRecord>)
        ensures
            r@ == self@,
    {
        &self.entries
    }
}

} // verus!
