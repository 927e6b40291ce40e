use sys_dash::error::{CollectError, ParseError};
use sys_dash::os_release::{get_os, parse_os};

#[test]
fn pretty_name_without_quotes() {
    assert_eq!(parse_os("PRETTY_NAME=Ubuntu 20.04").unwrap(), "Ubuntu 20.04");
}

#[test]
fn pretty_name_with_quotes() {
    assert_eq!(parse_os("PRETTY_NAME=\"Ubuntu 20.04\"").unwrap(), "Ubuntu 20.04");
    assert_eq!(parse_os("PRETTY_NAME='Ubuntu 20.04'\n").unwrap(), "Ubuntu 20.04");
}

#[test]
fn pretty_name_in_a_whole_file() {
    let text = "NAME=\"Ubuntu\"\nVERSION=\"20.04.1 LTS (Focal Fossa)\"\nID=ubuntu\nID_LIKE=debian\nPRETTY_NAME=\"Ubuntu 20.04.1 LTS\"\nVERSION_ID=\"20.04\"\nHOME_URL=\"https://www.ubuntu.com/?a=b\"\n\n# comment\nUBUNTU_CODENAME=focal";
    assert_eq!(parse_os(text).unwrap(), "Ubuntu 20.04.1 LTS");
}

#[test]
fn only_the_marks_around_the_value_are_taken_off() {
    assert_eq!(parse_os("PRETTY_NAME=\"The \"best\" OS\"").unwrap(), "The \"best\" OS");
    assert_eq!(parse_os("PRETTY_NAME=\"half").unwrap(), "\"half");
    assert_eq!(parse_os("PRETTY_NAME=\"mixed'").unwrap(), "\"mixed'");
    assert_eq!(parse_os("PRETTY_NAME=\"").unwrap(), "\"");
    assert_eq!(parse_os("PRETTY_NAME=\"\"").unwrap(), "");
    assert_eq!(parse_os("PRETTY_NAME=").unwrap(), "");
    assert_eq!(parse_os("PRETTY_NAME=a=b").unwrap(), "a=b");
}

#[test]
fn the_first_pretty_name_counts() {
    assert_eq!(parse_os("PRETTY_NAME=one\nPRETTY_NAME=two").unwrap(), "one");
}

#[test]
fn release_text_without_pretty_name() {
    assert_eq!(parse_os("").err(), Some(ParseError::FieldNotFound));
    assert_eq!(parse_os("NAME=Ubuntu\nID=ubuntu\n").err(), Some(ParseError::FieldNotFound));
    assert_eq!(parse_os("PRETTY_NAMES=x").err(), Some(ParseError::FieldNotFound));
    assert_eq!(parse_os("MY_PRETTY_NAME=x").err(), Some(ParseError::FieldNotFound));
    assert_eq!(parse_os("PRETTY_NAME").err(), Some(ParseError::FieldNotFound));
}

#[test]
fn os_name_of_a_command() {
    assert_eq!(get_os(&None).err(), Some(CollectError::SourceUnavailable));
    assert_eq!(get_os(&Some(b"ID=x\nPRETTY_NAME=\"Debian GNU/Linux 12\"\n".to_vec())).unwrap(), "Debian GNU/Linux 12");
    assert_eq!(
        get_os(&Some(b"ID=x\n".to_vec())).err(),
        Some(CollectError::ParseFailure(ParseError::FieldNotFound))
    );
}
