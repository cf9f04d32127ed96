use hostmon::csvrow::{header_line, render_row};
use hostmon::numfmt::u64_to_dec;
use hostmon::snapshot::Snapshot;

fn sample_snapshot() -> Snapshot {
    Snapshot {
        host_name: String::from("atlas"),
        system_name: String::from("Linux"),
        system_version: String::from("6.1"),
        cpu_usage: String::from("12.5"),
        memory_used: 4_000_000_000,
        memory_total: 16_000_000_000,
        disk_used: 380_000,
        disk_total: 500_000,
        network_in: 400,
        network_out: 70,
        timestamp: String::from("2024-05-01T00:00:00+00:00"),
    }
}

#[test]
fn header_names_the_eleven_columns_in_order() {
    assert_eq!(
        header_line(),
        "host_name,system_name,system_version,cpu_usage,memory_used,memory_total,disk_used,disk_total,network_in,network_out,timestamp\n"
    );
}

#[test]
fn decimal_rendering_is_exact() {
    assert_eq!(u64_to_dec(0), "0");
    assert_eq!(u64_to_dec(7), "7");
    assert_eq!(u64_to_dec(10), "10");
    assert_eq!(u64_to_dec(4_000_000_000), "4000000000");
    assert_eq!(u64_to_dec(u64::MAX), "18446744073709551615");
}

#[test]
fn row_holds_the_fields_in_the_fixed_order() {
    let row = render_row(&sample_snapshot());
    assert_eq!(
        row,
        "atlas,Linux,6.1,12.5,4000000000,16000000000,380000,500000,400,70,2024-05-01T00:00:00+00:00\n"
    );
}

#[test]
fn special_characters_are_quoted_and_escaped() {
    let mut s = sample_snapshot();
    s.host_name = String::from("a,b");
    s.system_name = String::from("say \"hi\"");
    s.system_version = String::from("line\nbreak");
    let row = render_row(&s);
    assert!(row.starts_with("\"a,b\",\"say \"\"hi\"\"\",\"line\nbreak\",12.5,"));
}

#[test]
fn csv_reader_recovers_each_field_of_a_row() {
    let mut s = sample_snapshot();
    s.host_name = String::from("a,b \"quoted\"\nnext");
    s.timestamp = String::from("t,\"t\"");
    let data = format!("{}{}", header_line(), render_row(&s));
    let mut reader = csv::Reader::from_reader(data.as_bytes());
    let headers = reader.headers().unwrap().clone();
    assert_eq!(headers.len(), 11);
    assert_eq!(&headers[0], "host_name");
    assert_eq!(&headers[10], "timestamp");
    let records: Vec<csv::StringRecord> = reader.records().map(|r| r.unwrap()).collect();
    assert_eq!(records.len(), 1);
    let rec = &records[0];
    assert_eq!(rec.len(), 11);
    assert_eq!(&rec[0], "a,b \"quoted\"\nnext");
    assert_eq!(&rec[1], "Linux");
    assert_eq!(&rec[4], "4000000000");
    assert_eq!(&rec[10], "t,\"t\"");
}
