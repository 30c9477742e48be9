//! Which workers run, and how their outcomes combine into the run's result.

use vstd::prelude::*;
use crate::ingest::{EventKind, WorkerError};

verus! {

/// Why the watch list cannot be used.
#[derive(Debug, PartialEq, Eq)]
pub enum ConfigError {
    /// The configuration has no watch list.
    Missing,
    /// The watch list names no process.
    Empty,
    /// The configuration could not be read as a document.
    Malformed(String),
}

/// One stream to subscribe to: a watched name and a kind of notification.
#[derive(Debug, PartialEq, Eq)]
pub struct Subscription {
    pub process_name: String,
    pub kind: EventKind,
}

/// Accepts the watch list of a configuration: it must be present and name at
/// least one process.
pub fn watch_list_from(list: Option<Vec<String>>) -> (r: Result<Vec<String>, ConfigError>)
    ensures
        list is None ==> r == Err::<Vec<String>, ConfigError>(ConfigError::Missing),
        list matches Some(l) ==> (l@.len() == 0 ==> r == Err::<Vec<String>, ConfigError>(
            ConfigError::Empty)),
        list matches Some(l) ==> (l@.len() > 0 ==> r == Ok::<Vec<String>, ConfigError>(l)),
{
    match list {
        None => Err(ConfigError::Missing),
        Some(l) => {
            if l.len() == 0 {
                Err(ConfigError::Empty)
            } else {
                Ok(l)
            }
        },
    }
}

/// One subscription per watched name and kind: first the start streams of
/// all names in order, then their stop streams.
pub fn worker_plan(names: &Vec<String>) -> (r: Vec<Subscription>)
    requires
        names@.len() * 2 <= usize::MAX,
    ensures
        r@.len() == 2 * names@.len(),
        forall|i: int|
            0 <= i < names@.len() ==> (#[trigger] r@[i]) == (Subscription {
                process_name: names@[i],
                kind: EventKind::Start,
            }),
        forall|i: int|
            0 <= i < names@.len() ==> (#[trigger] r@[names@.len() + i]) == (Subscription {
                process_name: names@[i],
                kind: EventKind::Stop,
            }),
{
    let mut r: Vec<Subscription> = Vec::new();
    let n = names.len();
    let mut i: usize = 0;
    while i < n
        invariant
            n == names@.len(),
            0 <= i <= n,
            r@.len() == i,
            forall|j: int|
                0 <= j < i ==> (#[trigger] r@[j]) == (Subscription {
                    process_name: names@[j],
                    kind: EventKind::Start,
                }),
        decreases n - i,
    {
        r.push(Subscription { process_name: names[i].clone(), kind: EventKind::Start });
        i = i + 1;
    }
    let mut i: usize = 0;
    while i < n
        invariant
            n == names@.len(),
            0 <= i <= n,
            r@.len() == n + i,
            forall|j: int|
                0 <= j < n ==> (#[trigger] r@[j]) == (Subscription {
                    process_name: names@[j],
                    kind: EventKind::Start,
                }),
            forall|j: int|
                0 <= j < i ==> (#[trigger] r@[n + j]) == (Subscription {
                    process_name: names@[j],
                    kind: EventKind::Stop,
                }),
        decreases n - i,
    {
        r.push(Subscription { process_name: names[i].clone(), kind: EventKind::Stop });
        proof {
            assert(r@[n + i] == r@.last());
        }
        i = i + 1;
    }
    r
}

/// The run's result so far, `acc`, after one more worker reported `next`:
/// the first error stays, later ones do not replace it.
pub open spec fn joined(acc: Result<(), WorkerError>, next: Result<(), WorkerError>) -> Result<
    (),
    WorkerError,
> {
    if acc is Err {
        acc
    } else {
        next
    }
}

/// The run's result for worker outcomes in the order they were joined.
pub open spec fn run_result(outcomes: Seq<Result<(), WorkerError>>) -> Result<(), WorkerError>
    decreases outcomes.len(),
{
    if outcomes.len() == 0 {
        Ok(())
    } else {
        joined(run_result(outcomes.drop_last()), outcomes.last())
    }
}

/// Folds one more worker outcome into the run's result.
pub fn join_outcome(acc: Result<(), WorkerError>, next: Result<(), WorkerError>) -> (r: Result<
    (),
    WorkerError,
>)
    ensures
        r == joined(acc, next),
{
    match acc {
        Err(e) => Err(e),
        Ok(()) => next,
    }
}

/// The run's result for all worker outcomes, in the order they were joined:
/// success when every worker succeeded, else the first error.
pub fn first_error(outcomes: Vec<Result<(), WorkerError>>) -> (r: Result<(), WorkerError>)
    ensures
        r == run_result(outcomes@),
{
    let ghost all = outcomes@;
    let mut rest = outcomes;
    let mut acc: Result<(), WorkerError> = Ok(());
    let ghost mut k: int = 0;
    while rest.len() > 0
        invariant
            0 <= k <= all.len(),
            rest@ == all.subrange(k, all.len() as int),
            acc == run_result(all.take(k)),
        decreases rest@.len(),
    {
        let next = rest.remove(0);
        proof {
            assert(all.take(k + 1).drop_last() =~= all.take(k));
            assert(next == all[k]);
        }
        acc = join_outcome(acc, next);
        proof {
            k = k + 1;
            assert(rest@ =~= all.subrange(k, all.len() as int));
        }
    }
    proof {
        assert(all.take(k) =~= all);
    }
    acc
}

} // verus!
