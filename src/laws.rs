//! Properties of the process table that hold for all inputs.

use vstd::prelude::*;
use crate::ingest::{Event, EventKind, WorkerError, event_applied};
use crate::orchestrate::run_result;
use crate::table::{ProcessRecord, start_applied, stop_applied};
use crate::report::times_valid;
use crate::time::Instant;

verus! {

/// The table after an interleaving of events from any number of streams,
/// applied one at a time in the order given.
pub open spec fn history_applied(m: Map<u32, ProcessRecord>, ops: Seq<(EventKind, Event)>) -> Map<
    u32,
    ProcessRecord,
>
    decreases ops.len(),
{
    if ops.len() == 0 {
        m
    } else {
        event_applied(history_applied(m, ops.drop_last()), ops.last().0, ops.last().1)
    }
}

/// Every record describes an instance whose start was seen, and its times
/// are within range of a tick count.
pub open spec fn records_sound(m: Map<u32, ProcessRecord>) -> bool {
    forall|pid: u32| #[trigger] m.contains_key(pid) ==> m[pid].start_time is Some && times_valid(m[pid])
}

/// A start followed by a stop of the same identifier leaves exactly the
/// record with the start's name and time and the stop's time.
pub proof fn start_then_stop(
    m: Map<u32, ProcessRecord>,
    pid: u32,
    name: String,
    t1: Instant,
    t2: Instant,
)
    ensures
        stop_applied(start_applied(m, pid, name, t1), pid, t2).contains_key(pid),
        stop_applied(start_applied(m, pid, name, t1), pid, t2)[pid] == (ProcessRecord {
            process_name: name,
            start_time: Some(t1),
            stop_time: Some(t2),
        }),
{
}

/// A stop of an identifier with no record leaves the table unchanged.
pub proof fn stop_without_start(m: Map<u32, ProcessRecord>, pid: u32, t: Instant)
    requires
        !m.contains_key(pid),
    ensures
        stop_applied(m, pid, t) == m,
{
}

/// A second start of an identifier, with or without a stop between, yields a
/// fresh record: nothing of the earlier instance remains, and the table is
/// the one that the second start alone would have made.
pub proof fn restart_discards(
    m: Map<u32, ProcessRecord>,
    pid: u32,
    name_a: String,
    name_b: String,
    t1: Instant,
    t2: Instant,
    t_stop: Instant,
)
    ensures
        start_applied(start_applied(m, pid, name_a, t1), pid, name_b, t2) == start_applied(
            m,
            pid,
            name_b,
            t2,
        ),
        start_applied(stop_applied(start_applied(m, pid, name_a, t1), pid, t_stop), pid, name_b, t2)
            == start_applied(m, pid, name_b, t2),
        start_applied(m, pid, name_b, t2)[pid] == (ProcessRecord {
            process_name: name_b,
            start_time: Some(t2),
            stop_time: None,
        }),
{
    assert(start_applied(start_applied(m, pid, name_a, t1), pid, name_b, t2) =~= start_applied(
        m,
        pid,
        name_b,
        t2,
    ));
    assert(start_applied(stop_applied(start_applied(m, pid, name_a, t1), pid, t_stop), pid, name_b, t2)
        =~= start_applied(m, pid, name_b, t2));
}

/// Under any interleaving of start and stop events, every record in the
/// table is that of an instance whose start was applied: a stop never makes
/// a record of its own, a record holds the start time of its instance, and
/// every time in it came from a tick count.
pub proof fn interleaving_keeps_records_sound(
    m: Map<u32, ProcessRecord>,
    ops: Seq<(EventKind, Event)>,
)
    requires
        records_sound(m),
    ensures
        records_sound(history_applied(m, ops)),
    decreases ops.len(),
{
    if ops.len() > 0 {
        interleaving_keeps_records_sound(m, ops.drop_last());
        let before = history_applied(m, ops.drop_last());
        let after = history_applied(m, ops);
        Instant::of_ticks_valid(ops.last().1.time_created);
        assert forall|pid: u32| #[trigger] after.contains_key(pid) implies after[pid].start_time is Some
            && times_valid(after[pid]) by {
            if pid != ops.last().1.process_id {
                assert(before.contains_key(pid));
            }
        }
    }
}

/// Events of different identifiers commute: two streams that deliver them in
/// either order leave the same table.
pub proof fn other_identifiers_commute(
    m: Map<u32, ProcessRecord>,
    k1: EventKind,
    e1: Event,
    k2: EventKind,
    e2: Event,
)
    requires
        e1.process_id != e2.process_id,
    ensures
        event_applied(event_applied(m, k1, e1), k2, e2) == event_applied(
            event_applied(m, k2, e2),
            k1,
            e1,
        ),
{
    assert(event_applied(event_applied(m, k1, e1), k2, e2) =~= event_applied(
        event_applied(m, k2, e2),
        k1,
        e1,
    ));
}

/// The run's result is the first error among the joined outcomes, and
/// success when there is none.
pub proof fn run_result_is_first_error(outcomes: Seq<Result<(), WorkerError>>)
    ensures
        (forall|i: int| 0 <= i < outcomes.len() ==> (#[trigger] outcomes[i]) is Ok) ==> run_result(
            outcomes,
        ) is Ok,
        forall|k: int|
            0 <= k < outcomes.len() && (#[trigger] outcomes[k]) is Err && (forall|i: int|
                0 <= i < k ==> (#[trigger] outcomes[i]) is Ok) ==> run_result(outcomes)
                == outcomes[k],
    decreases outcomes.len(),
{
    if outcomes.len() > 0 {
        let prefix = outcomes.drop_last();
        run_result_is_first_error(prefix);
        assert forall|k: int|
            0 <= k < outcomes.len() && (#[trigger] outcomes[k]) is Err && (forall|i: int|
                0 <= i < k ==> (#[trigger] outcomes[i]) is Ok) implies run_result(outcomes)
            == outcomes[k] by {
            if k < outcomes.len() - 1 {
                assert(prefix[k] == outcomes[k]);
                assert forall|i: int| 0 <= i < k implies (#[trigger] prefix[i]) is Ok by {
                    assert(prefix[i] == outcomes[i]);
                }
            } else {
                assert forall|i: int| 0 <= i < prefix.len() implies (#[trigger] prefix[i]) is Ok by {
                    assert(prefix[i] == outcomes[i]);
                }
            }
        }
        if forall|i: int| 0 <= i < outcomes.len() ==> (#[trigger] outcomes[i]) is Ok {
            assert forall|i: int| 0 <= i < prefix.len() implies (#[trigger] prefix[i]) is Ok by {
                assert(prefix[i] == outcomes[i]);
            }
        }
    }
}

} // verus!
