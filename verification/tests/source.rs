use sys_dash::source::{get_command_output, Stringify};

#[test]
fn ascii_bytes_are_their_text() {
    assert_eq!(b"hello world".to_vec().to_string(), "hello world");
    assert_eq!(Vec::<u8>::new().to_string(), "");
}

#[test]
fn valid_utf8_bytes_are_the_text_they_encode() {
    assert_eq!("gr\u{fc}n \u{2603}".as_bytes().to_vec().to_string(), "gr\u{fc}n \u{2603}");
}

#[test]
fn invalid_bytes_are_replaced() {
    assert_eq!(vec![b'a', 0xff, b'b'].to_string(), "a\u{fffd}b");
}

#[test]
fn command_output_loses_one_final_line_feed() {
    assert_eq!(get_command_output(&Some(b"dan\n".to_vec())), Some(String::from("dan")));
    assert_eq!(get_command_output(&Some(b"dan\n\n".to_vec())), Some(String::from("dan\n")));
    assert_eq!(get_command_output(&Some(b"dan".to_vec())), Some(String::from("dan")));
    assert_eq!(get_command_output(&Some(b"a\nb\n".to_vec())), Some(String::from("a\nb")));
    assert_eq!(get_command_output(&Some(Vec::new())), Some(String::new()));
}

#[test]
fn command_that_did_not_run_has_no_output() {
    assert_eq!(get_command_output(&None), None);
}
