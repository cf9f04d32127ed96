use hostmon::collector::{DiskReading, NetReading, OsReadings};
use hostmon::csvrow::render_row;
use hostmon::driver::Driver;

fn stub_readings(tick: u64) -> OsReadings {
    OsReadings {
        host_name: Some(String::from("atlas")),
        system_name: Some(String::from("Linux")),
        system_version: Some(String::from("6.1")),
        cpu_usage: String::from("12.5"),
        memory_used: 4_000_000_000 + tick,
        memory_total: 16_000_000_000,
        disks: vec![DiskReading { total_bytes: 500_000, available_bytes: 120_000 }],
        networks: vec![
            NetReading { received: 100 * (tick + 1), transmitted: 50 },
            NetReading { received: 300, transmitted: 20 },
        ],
    }
}

fn timestamp(tick: u64) -> String {
    format!("2024-05-01T00:00:0{}+00:00", tick)
}

/// Opens a fresh log as a new process instance would: the file is created
/// empty, the header is owed, written, and its outcome reported.
fn open_new_log() -> (Driver, String) {
    let (mut driver, header) = Driver::new(0);
    let file = header.expect("an empty file is owed the header");
    assert!(driver.appender.header_pending);
    driver.note_header_result(true);
    assert!(driver.appender.header_emitted);
    (driver, file)
}

/// Runs one tick against the simulated log file, with the given append
/// outcome, as the surrounding program would.
fn run_tick(driver: &mut Driver, file: &mut String, tick: u64, append_ok: bool) {
    assert!(driver.is_idle());
    let row = driver.process_tick(&stub_readings(tick), timestamp(tick));
    if append_ok {
        file.push_str(&row);
    }
    driver.note_append_result(append_ok);
}

#[test]
fn n_ticks_leave_n_rows_after_the_header() {
    let (mut driver, mut file) = open_new_log();
    for tick in 0..5 {
        run_tick(&mut driver, &mut file, tick, true);
    }
    assert_eq!(driver.appender.rows_appended, 5);
    let mut reader = csv::Reader::from_reader(file.as_bytes());
    assert_eq!(reader.headers().unwrap().len(), 11);
    let records: Vec<csv::StringRecord> = reader.records().map(|r| r.unwrap()).collect();
    assert_eq!(records.len(), 5);
    for rec in &records {
        assert_eq!(rec.len(), 11);
    }
}

#[test]
fn reopening_an_existing_file_never_rewrites_prior_rows() {
    // First process instance: creates the file and writes the header.
    let (mut first, mut file) = open_new_log();
    run_tick(&mut first, &mut file, 0, true);
    let after_first = file.clone();

    // Second process instance: the file already has content, so no header is
    // written and the prior content only grows.
    let (mut second, header) = Driver::new(file.len() as u64);
    assert!(header.is_none());
    run_tick(&mut second, &mut file, 1, true);
    assert!(file.starts_with(&after_first));
    assert!(file.len() > after_first.len());
}

#[test]
fn append_failure_leaves_the_loop_idle_and_the_next_tick_runs() {
    let (mut driver, mut file) = open_new_log();
    run_tick(&mut driver, &mut file, 0, false);
    assert!(driver.is_idle());
    assert_eq!(driver.appender.rows_appended, 0);
    assert_eq!(driver.ticks, 1);

    run_tick(&mut driver, &mut file, 1, true);
    assert!(driver.is_idle());
    assert_eq!(driver.appender.rows_appended, 1);
    assert_eq!(driver.ticks, 2);

    // The failed tick's record is permanently lost: only the second tick's
    // record stands after the header.
    let mut reader = csv::Reader::from_reader(file.as_bytes());
    let records: Vec<csv::StringRecord> = reader.records().map(|r| r.unwrap()).collect();
    assert_eq!(records.len(), 1);
    assert_eq!(&records[0][4], "4000000001");
}

#[test]
fn failed_header_write_is_not_counted_and_ticks_still_run() {
    let (mut driver, header) = Driver::new(0);
    let _owed = header.expect("an empty file is owed the header");
    // The header write fails: it is not retried, and it is never counted as
    // reaching the file.
    driver.note_header_result(false);
    assert!(!driver.appender.header_pending);
    assert!(!driver.appender.header_emitted);

    let mut file = String::new();
    run_tick(&mut driver, &mut file, 0, true);
    assert!(driver.is_idle());
    assert_eq!(driver.appender.rows_appended, 1);
    assert!(!driver.appender.header_emitted);

    // The file holds the one data record and no header row.
    let mut reader = csv::ReaderBuilder::new().has_headers(false).from_reader(file.as_bytes());
    let records: Vec<csv::StringRecord> = reader.records().map(|r| r.unwrap()).collect();
    assert_eq!(records.len(), 1);
    assert_eq!(records[0].len(), 11);
    assert_eq!(&records[0][0], "atlas");
}

#[test]
fn store_version_steps_once_per_update() {
    let (mut driver, mut file) = open_new_log();
    assert_eq!(driver.store.version, 0);
    run_tick(&mut driver, &mut file, 0, true);
    assert_eq!(driver.store.version, 1);
    // An append failure does not take the update back: the display keeps the
    // newest snapshot.
    run_tick(&mut driver, &mut file, 1, false);
    assert_eq!(driver.store.version, 2);
}

#[test]
fn three_stubbed_ticks_end_to_end() {
    let (mut driver, mut file) = open_new_log();
    let mut expected = file.clone();
    for tick in 0..3 {
        run_tick(&mut driver, &mut file, tick, true);
    }

    // The store holds exactly the third tick's snapshot.
    let latest = driver.store.latest().as_ref().expect("a snapshot is on display");
    assert_eq!(latest.memory_used, 4_000_000_002);
    assert_eq!(latest.network_in, 600);
    assert_eq!(latest.network_out, 70);
    assert_eq!(latest.timestamp, "2024-05-01T00:00:02+00:00");

    // The log holds exactly the three records, in order.
    for tick in 0..3 {
        let prev = hostmon::snapshot::Snapshot::initial();
        let s = hostmon::collector::build_snapshot(&prev, &stub_readings(tick), timestamp(tick));
        expected.push_str(&render_row(&s));
    }
    assert_eq!(file, expected);
    let mut reader = csv::Reader::from_reader(file.as_bytes());
    assert_eq!(reader.records().count(), 3);
}

#[test]
fn live_system_collection_produces_a_renderable_snapshot() {
    let mut collector = hostmon::osquery::MetricsCollector::new();
    let prev = hostmon::snapshot::Snapshot::initial();
    let ts = hostmon::clock::now_rfc3339();
    assert!(!ts.is_empty());
    let s = collector.collect(&prev, ts);
    assert!(s.memory_total >= s.memory_used);
    let row = render_row(&s);
    assert!(row.ends_with('\n'));
    let mut reader = csv::ReaderBuilder::new().has_headers(false).from_reader(row.as_bytes());
    let records: Vec<csv::StringRecord> = reader.records().map(|r| r.unwrap()).collect();
    assert_eq!(records.len(), 1);
    assert_eq!(records[0].len(), 11);
}
