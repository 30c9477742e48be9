//! What the periodic report shows of each entry of a snapshot.

use vstd::prelude::*;
use crate::table::ProcessRecord;
use crate::time::{CivilTime, Instant, MAX_EPOCH_SECS};

verus! {

/// One line of the report: the identifier, the name, and the start and stop
/// times as UTC calendar readings, `None` where not yet observed.
#[derive(Debug, PartialEq, Eq)]
pub struct ReportRow {
    pub pid: u32,
    pub process_name: String,
    pub start: Option<CivilTime>,
    pub stop: Option<CivilTime>,
}

/// Time between two reports, in milliseconds.
pub const REPORT_INTERVAL_MS: u64 = 5_000;

/// What the reporter does on waking.
#[derive(Clone, Copy, Debug, PartialEq, Eq, Structural)]
pub enum ReporterAction {
    /// The run is over: stop without another report.
    Exit,
    /// A full interval has passed: take a snapshot and print it.
    Report,
    /// Sleep again.
    Wait,
}

/// The reporter's decision after `elapsed_ms` milliseconds since its last
/// report; cancellation wins over a due report.
pub fn reporter_step(elapsed_ms: u64, cancelled: bool) -> (r: ReporterAction)
    ensures
        cancelled ==> r == ReporterAction::Exit,
        !cancelled && elapsed_ms >= REPORT_INTERVAL_MS ==> r == ReporterAction::Report,
        !cancelled && elapsed_ms < REPORT_INTERVAL_MS ==> r == ReporterAction::Wait,
{
    if cancelled {
        ReporterAction::Exit
    } else if elapsed_ms >= REPORT_INTERVAL_MS {
        ReporterAction::Report
    } else {
        ReporterAction::Wait
    }
}

/// `c` is the calendar reading of `t`, and absent where `t` is.
pub open spec fn reads_as(c: Option<CivilTime>, t: Option<Instant>) -> bool {
    match t {
        None => c is None,
        Some(t) => c matches Some(c) && c.holds(t.secs, t.nanos),
    }
}

/// The record's times are within range of a tick count.
pub open spec fn times_valid(rec: ProcessRecord) -> bool {
    &&& (rec.start_time matches Some(t) ==> t.valid())
    &&& (rec.stop_time matches Some(t) ==> t.valid())
}

/// Whether the record's times are within range of a tick count.
pub fn has_valid_times(rec: &ProcessRecord) -> (r: bool)
    ensures
        r == times_valid(*rec),
{
    let start_ok = match rec.start_time {
        None => true,
        Some(t) => t.nanos < 1_000_000_000 && t.secs <= MAX_EPOCH_SECS,
    };
    let stop_ok = match rec.stop_time {
        None => true,
        Some(t) => t.nanos < 1_000_000_000 && t.secs <= MAX_EPOCH_SECS,
    };
    start_ok && stop_ok
}

fn civil_of(t: Option<Instant>) -> (r: Option<CivilTime>)
    requires
        t matches Some(t) ==> t.valid(),
    ensures
        reads_as(r, t),
{
    match t {
        None => None,
        Some(t) => Some(t.to_civil()),
    }
}

/// The report row for the entry `pid` ↦ `rec`; each time is read from its
/// own field of the record.
pub fn report_row(pid: u32, rec: &ProcessRecord) -> (r: ReportRow)
    requires
        times_valid(*rec),
    ensures
        r.pid == pid,
        r.process_name == rec.process_name,
        reads_as(r.start, rec.start_time),
        reads_as(r.stop, rec.stop_time),
{
    ReportRow {
        pid,
        process_name: rec.process_name.clone(),
        start: civil_of(rec.start()),
        stop: civil_of(rec.stop()),
    }
}

} // verus!
