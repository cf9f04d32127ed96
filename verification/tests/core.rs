use hostmon::appender::AppendError;
use hostmon::collector::{build_snapshot, DiskReading, NetReading, OsReadings};
use hostmon::snapshot::Snapshot;

fn stub_readings() -> OsReadings {
    OsReadings {
        host_name: Some(String::from("atlas")),
        system_name: Some(String::from("Linux")),
        system_version: Some(String::from("6.1")),
        cpu_usage: String::from("12.5"),
        memory_used: 4_000_000_000,
        memory_total: 16_000_000_000,
        disks: vec![DiskReading { total_bytes: 500_000, available_bytes: 120_000 }],
        networks: vec![
            NetReading { received: 100, transmitted: 50 },
            NetReading { received: 300, transmitted: 20 },
        ],
    }
}

#[test]
fn network_sums_are_per_interface_sums() {
    let prev = Snapshot::initial();
    let s = build_snapshot(&prev, &stub_readings(), String::from("t0"));
    assert_eq!(s.network_in, 400);
    assert_eq!(s.network_out, 70);
}

#[test]
fn memory_passes_through_byte_exact() {
    let prev = Snapshot::initial();
    let s = build_snapshot(&prev, &stub_readings(), String::from("t0"));
    assert_eq!(s.memory_used, 4_000_000_000);
    assert_eq!(s.memory_total, 16_000_000_000);
}

#[test]
fn missing_host_name_becomes_empty() {
    let prev = Snapshot::initial();
    let mut r = stub_readings();
    r.host_name = None;
    let s = build_snapshot(&prev, &r, String::from("t0"));
    assert_eq!(s.host_name, "");
    assert_eq!(s.system_name, "Linux");
}

#[test]
fn zero_disks_on_first_tick_gives_zero() {
    let prev = Snapshot::initial();
    let mut r = stub_readings();
    r.disks = Vec::new();
    let s = build_snapshot(&prev, &r, String::from("t0"));
    assert_eq!(s.disk_used, 0);
    assert_eq!(s.disk_total, 0);
}

#[test]
fn zero_disks_carries_previous_values_forward() {
    let prev = Snapshot::initial();
    let first = build_snapshot(&prev, &stub_readings(), String::from("t0"));
    assert_eq!(first.disk_total, 500_000);
    assert_eq!(first.disk_used, 380_000);
    let mut r = stub_readings();
    r.disks = Vec::new();
    let second = build_snapshot(&first, &r, String::from("t1"));
    assert_eq!(second.disk_used, 380_000);
    assert_eq!(second.disk_total, 500_000);
}

#[test]
fn disk_used_is_total_minus_available() {
    let prev = Snapshot::initial();
    let mut r = stub_readings();
    r.disks = vec![DiskReading { total_bytes: 1000, available_bytes: 250 }];
    let s = build_snapshot(&prev, &r, String::from("t0"));
    assert_eq!(s.disk_used, 750);
    assert_eq!(s.disk_total, 1000);
}

#[test]
fn only_first_disk_is_read() {
    let prev = Snapshot::initial();
    let mut r = stub_readings();
    r.disks = vec![
        DiskReading { total_bytes: 1000, available_bytes: 600 },
        DiskReading { total_bytes: 9999, available_bytes: 1 },
    ];
    let s = build_snapshot(&prev, &r, String::from("t0"));
    assert_eq!(s.disk_total, 1000);
    assert_eq!(s.disk_used, 400);
}

#[test]
fn zero_interfaces_gives_zero_sums() {
    let prev = Snapshot::initial();
    let mut r = stub_readings();
    r.networks = Vec::new();
    let s = build_snapshot(&prev, &r, String::from("t0"));
    assert_eq!(s.network_in, 0);
    assert_eq!(s.network_out, 0);
}

#[test]
fn network_sums_saturate_instead_of_overflowing() {
    let prev = Snapshot::initial();
    let mut r = stub_readings();
    r.networks = vec![
        NetReading { received: u64::MAX, transmitted: u64::MAX - 10 },
        NetReading { received: 5, transmitted: 10 },
    ];
    let s = build_snapshot(&prev, &r, String::from("t0"));
    assert_eq!(s.network_in, u64::MAX);
    assert_eq!(s.network_out, u64::MAX);
}

#[test]
fn append_error_describes_itself() {
    let e = AppendError::WriteFailed;
    assert_eq!(e.describe(), "failed to append to the log");
}

#[test]
fn identity_and_timestamp_pass_through() {
    let prev = Snapshot::initial();
    let s = build_snapshot(&prev, &stub_readings(), String::from("2024-05-01T00:00:00+00:00"));
    assert_eq!(s.host_name, "atlas");
    assert_eq!(s.system_name, "Linux");
    assert_eq!(s.system_version, "6.1");
    assert_eq!(s.cpu_usage, "12.5");
    assert_eq!(s.timestamp, "2024-05-01T00:00:00+00:00");
}
