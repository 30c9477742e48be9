use proc_watch::ingest::{run_worker, Event, EventKind};
use proc_watch::orchestrate::{
    first_error, join_outcome, watch_list_from, worker_plan, ConfigError, Subscription,
};
use proc_watch::ingest::WorkerError;
use proc_watch::table::{ProcessRecord, ProcessTable};
use proc_watch::time::Instant;

const T1: u64 = 132_223_104_000_000_000;
const T2: u64 = 132_223_104_123_456_789;
const T3: u64 = 132_223_105_000_000_000;

fn ev(pid: u32, name: &str, ticks: u64) -> Event {
    Event { process_id: pid, process_name: name.to_string(), time_created: ticks }
}

/// Runs each planned subscription over its scripted stream, starts first.
fn run_plan(
    watch: Vec<String>,
    starts: Vec<Result<Event, String>>,
    stops: Vec<Result<Event, String>>,
) -> (ProcessTable, Result<(), WorkerError>) {
    let names = watch_list_from(Some(watch)).unwrap();
    let plan = worker_plan(&names);
    let mut table = ProcessTable::new();
    let mut outcomes = Vec::new();
    for sub in plan.iter() {
        let items = match sub.kind {
            EventKind::Start => &starts,
            EventKind::Stop => &stops,
        };
        outcomes.push(run_worker(&mut table, sub.kind, items));
    }
    (table.snapshot(), first_error(outcomes))
}

#[test]
fn start_and_stop_of_one_process() {
    let (snap, r) = run_plan(
        vec!["App.exe".to_string()],
        vec![Ok(ev(100, "App.exe", T1))],
        vec![Ok(ev(100, "App.exe", T2))],
    );
    assert_eq!(r, Ok(()));
    assert_eq!(snap.len(), 1);
    assert_eq!(
        snap.get(100),
        Some(&ProcessRecord {
            process_name: "App.exe".to_string(),
            start_time: Some(Instant::from_ticks(T1)),
            stop_time: Some(Instant::from_ticks(T2)),
        })
    );
}

#[test]
fn lone_stop_leaves_no_entry() {
    let (snap, r) = run_plan(vec!["App.exe".to_string()], vec![], vec![Ok(ev(200, "App.exe", T3))]);
    assert_eq!(r, Ok(()));
    assert!(snap.get(200).is_none());
    assert_eq!(snap.len(), 0);
}

#[test]
fn reused_pid_shows_latest_start() {
    let (snap, r) = run_plan(
        vec!["A.exe".to_string()],
        vec![Ok(ev(300, "A.exe", T1)), Ok(ev(300, "A.exe", T2))],
        vec![],
    );
    assert_eq!(r, Ok(()));
    let rec = snap.get(300).unwrap();
    assert_eq!(rec.start(), Some(Instant::from_ticks(T2)));
    assert_eq!(rec.stop(), None);
}

#[test]
fn watch_list_must_be_present_and_non_empty() {
    assert_eq!(watch_list_from(None), Err(ConfigError::Missing));
    assert_eq!(watch_list_from(Some(vec![])), Err(ConfigError::Empty));
    assert_eq!(
        watch_list_from(Some(vec!["a.exe".to_string()])),
        Ok(vec!["a.exe".to_string()])
    );
}

#[test]
fn plan_has_one_worker_per_name_and_kind() {
    let plan = worker_plan(&vec!["a.exe".to_string(), "b.exe".to_string()]);
    let sub = |n: &str, kind| Subscription { process_name: n.to_string(), kind };
    assert_eq!(
        plan,
        vec![
            sub("a.exe", EventKind::Start),
            sub("b.exe", EventKind::Start),
            sub("a.exe", EventKind::Stop),
            sub("b.exe", EventKind::Stop),
        ]
    );
    assert!(worker_plan(&vec![]).is_empty());
}

#[test]
fn first_error_wins() {
    let s = |m: &str| WorkerError::Stream(m.to_string());
    let outcomes = vec![
        Ok(()),
        Err(WorkerError::Subscription("no channel".to_string())),
        Ok(()),
        Err(s("later")),
    ];
    assert_eq!(first_error(outcomes), Err(WorkerError::Subscription("no channel".to_string())));
    assert_eq!(first_error(vec![Ok(()), Ok(())]), Ok(()));
    assert_eq!(first_error(vec![]), Ok(()));
    assert_eq!(join_outcome(Err(s("a")), Err(s("b"))), Err(s("a")));
    assert_eq!(join_outcome(Ok(()), Err(s("b"))), Err(s("b")));
    assert_eq!(join_outcome(Ok(()), Ok(())), Ok(()));
}

#[test]
fn failing_worker_reports_and_others_still_apply() {
    let (snap, r) = run_plan(
        vec!["App.exe".to_string()],
        vec![Ok(ev(100, "App.exe", T1)), Err("gone".to_string())],
        vec![Ok(ev(100, "App.exe", T2))],
    );
    assert_eq!(r, Err(WorkerError::Stream("gone".to_string())));
    assert_eq!(snap.get(100).unwrap().stop(), Some(Instant::from_ticks(T2)));
}
