//! What an ingestion worker does with each item of its notification stream.

use vstd::prelude::*;
use crate::table::{ProcessTable, ProcessRecord, start_applied, stop_applied};
use crate::time::Instant;

verus! {

/// The two notification streams kept per watched name.
#[derive(Clone, Copy, Debug, PartialEq, Eq, Structural)]
pub enum EventKind {
    Start,
    Stop,
}

/// One notification: the process it concerns and the tick count at which the
/// source saw the start or stop.
#[derive(Debug, PartialEq, Eq)]
pub struct Event {
    pub process_id: u32,
    pub process_name: String,
    pub time_created: u64,
}

/// Why a worker ended without draining its stream.
#[derive(Debug, PartialEq, Eq)]
pub enum WorkerError {
    /// The source could not set up the filtered stream.
    Subscription(String),
    /// The source failed in the middle of the stream.
    Stream(String),
}

/// What a worker does after one item.
#[derive(Debug, PartialEq, Eq)]
pub enum Step {
    /// The event was applied; wait for the next item.
    Continue,
    /// The item was a failure; the worker ends with this error.
    Fail(WorkerError),
}

/// The table after one event of the given kind, stamped with the event's own
/// time.
pub open spec fn event_applied(m: Map<u32, ProcessRecord>, kind: EventKind, ev: Event) -> Map<
    u32,
    ProcessRecord,
> {
    let t = Instant::of_ticks(ev.time_created);
    match kind {
        EventKind::Start => start_applied(m, ev.process_id, ev.process_name, t),
        EventKind::Stop => stop_applied(m, ev.process_id, t),
    }
}

/// The table after the events of `evs`, in order.
pub open spec fn events_applied(m: Map<u32, ProcessRecord>, kind: EventKind, evs: Seq<Event>) -> Map<
    u32,
    ProcessRecord,
>
    decreases evs.len(),
{
    if evs.len() == 0 {
        m
    } else {
        event_applied(events_applied(m, kind, evs.drop_last()), kind, evs.last())
    }
}

/// The events that the first `k` items of a stream delivered.
pub open spec fn delivered(items: Seq<Result<Event, String>>, k: int) -> Seq<Event> {
    items.take(k).map_values(|r: Result<Event, String>| r->Ok_0)
}

/// The first `k` items of the stream are all events.
pub open spec fn all_ok(items: Seq<Result<Event, String>>, k: int) -> bool {
    forall|i: int| 0 <= i < k ==> (#[trigger] items[i]) is Ok
}

/// Applies one event to the table, with the event's own time.
pub fn apply_event(table: &mut ProcessTable, kind: EventKind, ev: &Event)
    ensures
        final(table)@ == event_applied(old(table)@, kind, *ev),
{
    let t = Instant::from_ticks(ev.time_created);
    match kind {
        EventKind::Start => table.apply_start(ev.process_id, ev.process_name.clone(), t),
        EventKind::Stop => table.apply_stop(ev.process_id, t),
    }
}

/// Handles one item of a stream: an event is applied, a failure ends the
/// worker and leaves the table as it was.
pub fn worker_step(table: &mut ProcessTable, kind: EventKind, item: Result<Event, String>) -> (r:
    Step)
    ensures
        match item {
            Ok(ev) => r == Step::Continue && final(table)@ == event_applied(old(table)@, kind, ev),
            Err(msg) => r == Step::Fail(WorkerError::Stream(msg)) && final(table)@ == old(
                table,
            )@,
        },
{
    match item {
        Ok(ev) => {
            apply_event(table, kind, &ev);
            Step::Continue
        },
        Err(msg) => Step::Fail(WorkerError::Stream(msg)),
    }
}

/// Drains a finite stream in order, stopping at the first failure. The table
/// then holds exactly the events delivered before it.
pub fn run_worker(table: &mut ProcessTable, kind: EventKind, items: &Vec<Result<Event, String>>) -> (r:
    Result<(), WorkerError>)
    ensures
        r is Ok <==> all_ok(items@, items@.len() as int),
        r is Ok ==> final(table)@ == events_applied(
            old(table)@,
            kind,
            delivered(items@, items@.len() as int),
        ),
        r matches Err(e) ==> exists|k: int|
            0 <= k < items@.len() && all_ok(items@, k) && #[trigger] items@[k] == Err::<
                Event,
                String,
            >(e->Stream_0) && e is Stream && final(table)@ == events_applied(
                old(table)@,
                kind,
                delivered(items@, k),
            ),
{
    let mut i: usize = 0;
    while i < items.len()
        invariant
            0 <= i <= items@.len(),
            all_ok(items@, i as int),
            table@ == events_applied(old(table)@, kind, delivered(items@, i as int)),
        decreases items@.len() - i,
    {
        match &items[i] {
            Ok(ev) => {
                apply_event(table, kind, ev);
                proof {
                    let d = delivered(items@, i + 1);
                    assert(d.drop_last() =~= delivered(items@, i as int));
                    assert(d.last() == *ev);
                }
                i = i + 1;
            },
            Err(msg) => {
                return Err(WorkerError::Stream(msg.clone()));
            },
        }
    }
    Ok(())
}

} // verus!
