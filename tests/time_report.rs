use proc_watch::report::{
    has_valid_times, report_row, reporter_step, ReportRow, ReporterAction, REPORT_INTERVAL_MS,
};
use proc_watch::table::ProcessRecord;
use proc_watch::time::{CivilTime, Instant};

#[test]
fn ticks_split_into_seconds_and_nanos() {
    assert_eq!(Instant::from_ticks(0), Instant { secs: 0, nanos: 0 });
    assert_eq!(Instant::from_ticks(123_456_789), Instant { secs: 12, nanos: 345_678_900 });
    assert_eq!(Instant::from_ticks(9_999_999), Instant { secs: 0, nanos: 999_999_900 });
    assert_eq!(
        Instant::from_ticks(u64::MAX),
        Instant { secs: 1_844_674_407_370, nanos: 955_161_500 }
    );
}

#[test]
fn epoch_origin_reads_as_1601() {
    let c = Instant::from_ticks(0).to_civil();
    assert_eq!(
        c,
        CivilTime { year: 1601, month: 1, day: 1, hour: 0, minute: 0, second: 0, nanos: 0 }
    );
}

#[test]
fn unix_epoch_and_later_dates() {
    let c = Instant::from_ticks(116_444_736_000_000_000).to_civil();
    assert_eq!((c.year, c.month, c.day, c.hour, c.minute, c.second), (1970, 1, 1, 0, 0, 0));
    let c = Instant::from_ticks(132_223_104_123_456_789).to_civil();
    assert_eq!(
        c,
        CivilTime { year: 2020, month: 1, day: 1, hour: 0, minute: 0, second: 12, nanos: 345_678_900 }
    );
    let c = Instant::from_ticks(u64::MAX).to_civil();
    assert_eq!((c.year, c.month, c.day), (60056, 5, 28));
}

#[test]
fn report_row_reads_each_field() {
    let rec = ProcessRecord {
        process_name: "App.exe".to_string(),
        start_time: Some(Instant::from_ticks(0)),
        stop_time: Some(Instant::from_ticks(36_610_000_000)),
    };
    assert!(has_valid_times(&rec));
    let row = report_row(42, &rec);
    assert_eq!(row.pid, 42);
    assert_eq!(row.process_name, "App.exe");
    assert_eq!(row.start.unwrap().hour, 0);
    let stop = row.stop.unwrap();
    assert_eq!((stop.hour, stop.minute, stop.second), (1, 1, 1));
}

#[test]
fn report_row_marks_missing_stop() {
    let rec = ProcessRecord {
        process_name: "b.exe".to_string(),
        start_time: Some(Instant::from_ticks(10)),
        stop_time: None,
    };
    let row = report_row(1, &rec);
    assert_eq!(
        row,
        ReportRow {
            pid: 1,
            process_name: "b.exe".to_string(),
            start: Some(CivilTime { year: 1601, month: 1, day: 1, hour: 0, minute: 0, second: 0, nanos: 1000 }),
            stop: None,
        }
    );
}

#[test]
fn out_of_range_times_are_flagged() {
    let rec = ProcessRecord {
        process_name: "c.exe".to_string(),
        start_time: Some(Instant { secs: 0, nanos: 1_000_000_000 }),
        stop_time: None,
    };
    assert!(!has_valid_times(&rec));
    let rec = ProcessRecord {
        process_name: "c.exe".to_string(),
        start_time: None,
        stop_time: Some(Instant { secs: u64::MAX, nanos: 0 }),
    };
    assert!(!has_valid_times(&rec));
}

#[test]
fn reporter_waits_reports_and_exits() {
    assert_eq!(REPORT_INTERVAL_MS, 5_000);
    assert_eq!(reporter_step(0, false), ReporterAction::Wait);
    assert_eq!(reporter_step(4_999, false), ReporterAction::Wait);
    assert_eq!(reporter_step(5_000, false), ReporterAction::Report);
    assert_eq!(reporter_step(5_000, true), ReporterAction::Exit);
    assert_eq!(reporter_step(0, true), ReporterAction::Exit);
}
