use pheeple::call_log::{CallLog, CallStarted};

const CALLER: u128 = 0xa1a2a3a4b1b2c1c2d1d2d3d4d5d6d7d8;
const TOWER: u128 = 0x0123456789abcdef0fedcba987654321;

#[test]
fn header_names_three_columns() {
    assert_eq!(CallLog::header(), "timestamp,caller,tower\n");
}

#[test]
fn record_writes_timestamp_and_hyphenated_ids() {
    let mut log = CallLog::new();
    assert_eq!(log.len(), 0);
    log.record("1.25", &CallStarted { caller: CALLER, tower: TOWER });
    assert_eq!(log.len(), 1);
    let out = log.flush();
    assert_eq!(
        out,
        "1.25,a1a2a3a4-b1b2-c1c2-d1d2-d3d4d5d6d7d8,01234567-89ab-cdef-0fed-cba987654321\n"
    );
    assert_eq!(log.len(), 0);
}

#[test]
fn flush_joins_rows_in_order_and_ends_with_line_break() {
    let mut log = CallLog::new();
    log.record("0.5", &CallStarted { caller: 1, tower: 2 });
    log.record("3", &CallStarted { caller: 3, tower: u128::MAX });
    let out = log.flush();
    assert_eq!(
        out,
        "0.5,00000000-0000-0000-0000-000000000001,00000000-0000-0000-0000-000000000002\n\
         3,00000000-0000-0000-0000-000000000003,ffffffff-ffff-ffff-ffff-ffffffffffff\n"
    );
}

#[test]
fn flush_of_empty_log_writes_nothing() {
    let mut log = CallLog::new();
    assert_eq!(log.flush(), "");
    log.record("2", &CallStarted { caller: 0, tower: 0 });
    assert_eq!(log.flush(), "2,00000000-0000-0000-0000-000000000000,00000000-0000-0000-0000-000000000000\n");
    assert_eq!(log.flush(), "");
}

#[test]
fn flushes_in_batches_write_every_row_once() {
    let mut log = CallLog::new();
    let mut file = CallLog::header();
    log.record("1", &CallStarted { caller: 1, tower: 2 });
    file.push_str(&log.flush());
    file.push_str(&log.flush());
    log.record("2", &CallStarted { caller: 3, tower: 4 });
    log.record("3", &CallStarted { caller: 5, tower: 6 });
    file.push_str(&log.flush());
    let lines: Vec<&str> = file.lines().collect();
    assert_eq!(lines.len(), 4);
    assert_eq!(lines[0], "timestamp,caller,tower");
    assert!(lines[1].starts_with("1,"));
    assert!(lines[2].starts_with("2,"));
    assert!(lines[3].starts_with("3,"));
    assert!(file.ends_with('\n'));
    assert!(!file.contains("\n\n"));
}

#[test]
fn each_row_has_three_fields() {
    let mut log = CallLog::new();
    log.record("12.75", &CallStarted { caller: CALLER, tower: TOWER });
    let out = log.flush();
    let row = out.strip_suffix('\n').unwrap();
    let fields: Vec<&str> = row.split(',').collect();
    assert_eq!(fields.len(), 3);
    assert_eq!(fields[0], "12.75");
    assert_eq!(fields[1].len(), 36);
    assert_eq!(fields[2].len(), 36);
}
