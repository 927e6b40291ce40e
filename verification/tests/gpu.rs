use sys_dash::error::{CollectError, ParseError};
use sys_dash::gpu::{get_gpu_info, gpu_from_fields, gpu_from_record, parse_gpu_info, GPUInfo};

fn fields(items: &[&str]) -> Vec<String> {
    items.iter().map(|s| s.to_string()).collect()
}

#[test]
fn gpu_row_is_read_field_by_field() {
    let info = parse_gpu_info("NVIDIA GeForce GTX 1080, 65, 42, 8119, 1024, 85.3, 180.0").unwrap();
    assert_eq!(info.name, "NVIDIA GeForce GTX 1080");
    assert_eq!(info.temperature, 65);
    assert_eq!(info.utilization, 42);
    assert_eq!(info.total_memory, 8119);
    assert_eq!(info.used_memory, 1024);
    assert_eq!(info.power_draw, 85_300);
    assert_eq!(info.power_limit, 180_000);
    assert_eq!(info.power_draw as f64 / 1000.0, 85.3);
    assert_eq!(info.power_limit as f64 / 1000.0, 180.0);
}

#[test]
fn empty_gpu_output_is_no_gpu() {
    assert_eq!(parse_gpu_info("").unwrap(), GPUInfo::default());
}

#[test]
fn gpu_tool_that_did_not_run_is_no_gpu() {
    assert_eq!(get_gpu_info(&None).unwrap(), GPUInfo::default());
    assert_eq!(get_gpu_info(&Some(Vec::new())).unwrap(), GPUInfo::default());
    assert_eq!(get_gpu_info(&Some(b"\n".to_vec())).unwrap(), GPUInfo::default());
}

#[test]
fn no_gpu_is_empty_and_zero() {
    let info = GPUInfo::default();
    assert_eq!(info.name, "");
    assert_eq!(info.temperature, 0);
    assert_eq!(info.utilization, 0);
    assert_eq!(info.total_memory, 0);
    assert_eq!(info.used_memory, 0);
    assert_eq!(info.power_draw, 0);
    assert_eq!(info.power_limit, 0);
}

#[test]
fn gpu_output_of_the_tool() {
    let out = Some(b"Tesla T4, 38, 0, 15360, 3, 9.97, 70.00\n".to_vec());
    let info = get_gpu_info(&out).unwrap();
    assert_eq!(info.name, "Tesla T4");
    assert_eq!(info.temperature, 38);
    assert_eq!(info.utilization, 0);
    assert_eq!(info.total_memory, 15360);
    assert_eq!(info.used_memory, 3);
    assert_eq!(info.power_draw, 9_970);
    assert_eq!(info.power_limit, 70_000);
}

#[test]
fn only_the_first_gpu_is_read() {
    let info = parse_gpu_info("A, 1, 2, 3, 4, 5, 6\nB, 7, 8, 9, 10, 11, 12\n").unwrap();
    assert_eq!(info.name, "A");
    assert_eq!(info.power_limit, 6000);
}

#[test]
fn a_quoted_name_may_hold_a_comma() {
    let info = parse_gpu_info("\"GPU, big\",1,2,3,4,5,6").unwrap();
    assert_eq!(info.name, "GPU, big");
    assert_eq!(info.temperature, 1);
}

#[test]
fn gpu_record_with_too_few_fields() {
    assert_eq!(parse_gpu_info("A, 1, 2, 3, 4, 5").err(), Some(ParseError::FieldCount));
    assert_eq!(parse_gpu_info("No devices were found").err(), Some(ParseError::FieldCount));
    assert_eq!(gpu_from_fields(&fields(&[])).err(), Some(ParseError::FieldCount));
}

#[test]
fn gpu_record_with_more_fields() {
    let info = parse_gpu_info("A, 1, 2, 3, 4, 5, 6, more, and more").unwrap();
    assert_eq!(info.name, "A");
}

#[test]
fn gpu_fields_that_are_no_numbers() {
    assert_eq!(parse_gpu_info("A, hot, 2, 3, 4, 5, 6").err(), Some(ParseError::Malformed));
    assert_eq!(parse_gpu_info("A, 1, 2 %, 3, 4, 5, 6").err(), Some(ParseError::Malformed));
    assert_eq!(parse_gpu_info("A, 1, 2, 3.5, 4, 5, 6").err(), Some(ParseError::Malformed));
    assert_eq!(parse_gpu_info("A, 1, 2, 3, , 5, 6").err(), Some(ParseError::Malformed));
    assert_eq!(parse_gpu_info("A, 1, 2, 3, 4, [N/A], 6").err(), Some(ParseError::Malformed));
    assert_eq!(parse_gpu_info("A, 1, 2, 3, 4, 5, 6 W").err(), Some(ParseError::Malformed));
}

#[test]
fn gpu_fields_that_are_out_of_range() {
    assert_eq!(parse_gpu_info("A, 256, 2, 3, 4, 5, 6").err(), Some(ParseError::OutOfRange));
    assert_eq!(parse_gpu_info("A, 1, 101, 3, 4, 5, 6").err(), Some(ParseError::OutOfRange));
    assert_eq!(parse_gpu_info("A, 1, 2, 4294967296, 4, 5, 6").err(), Some(ParseError::OutOfRange));
    assert_eq!(parse_gpu_info("A, 1, 2, 3, 4294967296, 5, 6").err(), Some(ParseError::OutOfRange));
    assert_eq!(parse_gpu_info("A, 1, 2, 3, 4, 4294967.296, 6").err(), Some(ParseError::OutOfRange));
    assert_eq!(parse_gpu_info("A, 1, 2, 3, 4, 5, 4294968").err(), Some(ParseError::OutOfRange));
}

#[test]
fn gpu_fields_at_their_limits() {
    let info = parse_gpu_info("A, 255, 100, 4294967295, 4294967295, 4294967.295, 0").unwrap();
    assert_eq!(info.temperature, 255);
    assert_eq!(info.utilization, 100);
    assert_eq!(info.total_memory, u32::MAX);
    assert_eq!(info.used_memory, u32::MAX);
    assert_eq!(info.power_draw, u32::MAX);
    assert_eq!(info.power_limit, 0);
}

#[test]
fn the_first_bad_gpu_field_decides() {
    assert_eq!(gpu_from_fields(&fields(&["A", "256", "x", "3", "4", "5", "6"])).err(), Some(ParseError::OutOfRange));
    assert_eq!(gpu_from_fields(&fields(&["A", "x", "101", "3", "4", "5", "6"])).err(), Some(ParseError::Malformed));
}

#[test]
fn gpu_fields_are_trimmed() {
    let info = gpu_from_fields(&fields(&["  My GPU\t", " 1", "2 ", "\t3", "4\r", " 5.5 ", "6"])).unwrap();
    assert_eq!(info.name, "My GPU");
    assert_eq!(info.temperature, 1);
    assert_eq!(info.utilization, 2);
    assert_eq!(info.total_memory, 3);
    assert_eq!(info.used_memory, 4);
    assert_eq!(info.power_draw, 5500);
    assert_eq!(info.power_limit, 6000);
}

#[test]
fn gpu_from_what_was_read_of_a_record() {
    assert_eq!(gpu_from_record(None).unwrap(), GPUInfo::default());
    let info = gpu_from_record(Some(Ok(fields(&["A", "1", "2", "3", "4", "5", "6"])))).unwrap();
    assert_eq!(info.name, "A");
    assert_eq!(gpu_from_record(Some(Ok(fields(&["A"])))).err(), Some(ParseError::FieldCount));
}

#[test]
fn gpu_failure_of_the_tool_output() {
    assert_eq!(
        get_gpu_info(&Some(b"NVIDIA-SMI has failed because it couldn't communicate with the NVIDIA driver.\n".to_vec())).err(),
        Some(CollectError::ParseFailure(ParseError::FieldCount))
    );
}
