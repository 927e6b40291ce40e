use sys_dash::error::{CollectError, ParseError};
use sys_dash::memory::{get_memory_info, parse_memory_info, MemInfo};

#[test]
fn meminfo_block_gives_used_and_total_mib() {
    let text = "MemTotal:       16000000 kB\nMemFree:         1234567 kB\nMemAvailable:    8000000 kB";
    let m = parse_memory_info(text).unwrap();
    assert_eq!(m.used_mib(), 7812);
    assert_eq!(m.total_mib(), 15625);
}

#[test]
fn meminfo_does_not_depend_on_the_free_amount() {
    for free in ["0", "1", "8000000", "4294967295"] {
        let text = format!("MemTotal: 16000000 kB\nMemFree: {} kB\nMemAvailable: 8000000 kB\n", free);
        let m = parse_memory_info(&text).unwrap();
        assert_eq!(m.used_mib(), 7812);
        assert_eq!(m.total_mib(), 15625);
    }
}

#[test]
fn mib_is_kib_by_1024_rounded_down() {
    let m = MemInfo::new(2047, 1023).unwrap();
    assert_eq!(m.total_mib(), 1);
    assert_eq!(m.used_mib(), 1);
    let m = MemInfo::new(2048, 1025).unwrap();
    assert_eq!(m.total_mib(), 2);
    assert_eq!(m.used_mib(), 0);
    let m = MemInfo::new(u32::MAX, 0).unwrap();
    assert_eq!(m.total_mib(), 4194303);
    assert_eq!(m.used_mib(), 4194303);
}

#[test]
fn more_available_than_total_is_no_memory_info() {
    assert!(MemInfo::new(10, 11).is_none());
    assert!(MemInfo::new(10, 10).is_some());
}

#[test]
fn default_memory_is_zero() {
    let m = MemInfo::default();
    assert_eq!(m.total_mib(), 0);
    assert_eq!(m.used_mib(), 0);
}

#[test]
fn meminfo_of_a_whole_file() {
    let text = "MemTotal:       32780132 kB\nMemFree:        21245952 kB\nMemAvailable:   27513512 kB\nBuffers:          293140 kB\nCached:          5639108 kB\nSwapCached:            0 kB\n";
    let m = parse_memory_info(text).unwrap();
    assert_eq!(m.total_mib(), 32780132 / 1024);
    assert_eq!(m.used_mib(), (32780132 - 27513512) / 1024);
}

#[test]
fn meminfo_amounts_without_unit() {
    let m = parse_memory_info("MemTotal: 4096\nMemFree:1\nMemAvailable :\t1024  ").unwrap();
    assert_eq!(m.total_mib(), 4);
    assert_eq!(m.used_mib(), 3);
}

#[test]
fn meminfo_with_a_missing_field() {
    assert_eq!(parse_memory_info("").err(), Some(ParseError::FieldNotFound));
    assert_eq!(
        parse_memory_info("MemFree: 1 kB\nMemAvailable: 1 kB").err(),
        Some(ParseError::FieldNotFound)
    );
    assert_eq!(
        parse_memory_info("MemTotal: 2 kB\nMemAvailable: 1 kB").err(),
        Some(ParseError::FieldNotFound)
    );
    assert_eq!(
        parse_memory_info("MemTotal: 2 kB\nMemFree: 1 kB\nBuffers: 1 kB").err(),
        Some(ParseError::FieldNotFound)
    );
}

#[test]
fn meminfo_label_must_be_whole() {
    assert_eq!(
        parse_memory_info("MemTotalX: 2 kB\nMemFree: 1 kB\nMemAvailable: 1 kB").err(),
        Some(ParseError::FieldNotFound)
    );
    assert_eq!(
        parse_memory_info(" MemTotal: 2 kB\nMemFree: 1 kB\nMemAvailable: 1 kB").err(),
        Some(ParseError::FieldNotFound)
    );
}

#[test]
fn meminfo_with_an_amount_that_is_no_number() {
    assert_eq!(
        parse_memory_info("MemTotal: lots kB\nMemFree: 1 kB\nMemAvailable: 1 kB").err(),
        Some(ParseError::Malformed)
    );
    assert_eq!(
        parse_memory_info("MemTotal: 2 kB\nMemFree: kB\nMemAvailable: 1 kB").err(),
        Some(ParseError::Malformed)
    );
    assert_eq!(
        parse_memory_info("MemTotal: 2 kB\nMemFree: 1 kB\nMemAvailable: 1 MB").err(),
        Some(ParseError::Malformed)
    );
    assert_eq!(
        parse_memory_info("MemTotal: 2 kB\nMemFree: 1 kB\nMemAvailable: -1 kB").err(),
        Some(ParseError::Malformed)
    );
    assert_eq!(
        parse_memory_info("MemTotal:\nMemFree: 1 kB\nMemAvailable: 1 kB").err(),
        Some(ParseError::Malformed)
    );
}

#[test]
fn meminfo_with_an_amount_beyond_u32() {
    assert_eq!(
        parse_memory_info("MemTotal: 4294967296 kB\nMemFree: 1 kB\nMemAvailable: 1 kB").err(),
        Some(ParseError::OutOfRange)
    );
    assert!(parse_memory_info("MemTotal: 4294967295 kB\nMemFree: 1 kB\nMemAvailable: 1 kB").is_ok());
}

#[test]
fn meminfo_with_more_available_than_total() {
    assert_eq!(
        parse_memory_info("MemTotal: 10 kB\nMemFree: 1 kB\nMemAvailable: 11 kB").err(),
        Some(ParseError::OutOfRange)
    );
}

#[test]
fn meminfo_first_line_with_a_label_counts() {
    let m = parse_memory_info("MemTotal: 2048 kB\nMemTotal: 9999 kB\nMemFree: 1 kB\nMemAvailable: 0 kB")
        .unwrap();
    assert_eq!(m.total_mib(), 2);
}

#[test]
fn memory_of_a_command_that_did_not_run() {
    assert_eq!(get_memory_info(&None).err(), Some(CollectError::SourceUnavailable));
}

#[test]
fn memory_of_command_output() {
    let out = Some(b"MemTotal: 16000000 kB\nMemFree: 5 kB\nMemAvailable: 8000000 kB\n".to_vec());
    let m = get_memory_info(&out).unwrap();
    assert_eq!(m.used_mib(), 7812);
    let bad = Some(b"MemTotal: x kB\n".to_vec());
    assert_eq!(get_memory_info(&bad).err(), Some(CollectError::ParseFailure(ParseError::Malformed)));
}
