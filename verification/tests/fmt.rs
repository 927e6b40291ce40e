use sys_dash::fmt::{get_session_name, trim_newline, Celcify, Milli, Name, Percentify, Shown};

#[test]
fn session_name_is_user_at_host() {
    assert_eq!(get_session_name("dan", "tower"), "dan@tower");
    assert_eq!(get_session_name("", ""), "@");
    assert_eq!(get_session_name("a@b", "c"), "a@b@c");
    assert_eq!(get_session_name("j\u{fc}rgen", "h\u{f4}te"), "j\u{fc}rgen@h\u{f4}te");
}

#[test]
fn trim_newline_takes_one_line_feed_off() {
    let mut s = String::from("abc\n");
    trim_newline(&mut s);
    assert_eq!(s, "abc");
    let mut s = String::from("abc\n\n");
    trim_newline(&mut s);
    assert_eq!(s, "abc\n");
    let mut s = String::from("\n");
    trim_newline(&mut s);
    assert_eq!(s, "");
}

#[test]
fn trim_newline_leaves_other_text_alone() {
    let mut s = String::from("abc");
    trim_newline(&mut s);
    assert_eq!(s, "abc");
    let mut s = String::new();
    trim_newline(&mut s);
    assert_eq!(s, "");
    let mut s = String::from("abc\r");
    trim_newline(&mut s);
    assert_eq!(s, "abc\r");
    let mut s = String::from("\nabc ");
    trim_newline(&mut s);
    assert_eq!(s, "\nabc ");
    let mut s = String::from("gr\u{fc}n\n");
    trim_newline(&mut s);
    assert_eq!(s, "gr\u{fc}n");
}

#[test]
fn numbers_are_shown_in_base_ten() {
    assert_eq!(0u8.show(), "0");
    assert_eq!(9u8.show(), "9");
    assert_eq!(10u8.show(), "10");
    assert_eq!(255u8.show(), "255");
    assert_eq!(4294967295u32.show(), "4294967295");
    assert_eq!(u64::MAX.show(), "18446744073709551615");
    assert_eq!(1000u64.show(), "1000");
}

#[test]
fn texts_are_shown_as_they_are() {
    assert_eq!(String::from("a b").show(), "a b");
    assert_eq!("x".show(), "x");
}

#[test]
fn thousandths_are_shown_as_decimals() {
    assert_eq!(Milli(85_300).show(), "85.3");
    assert_eq!(Milli(180_000).show(), "180");
    assert_eq!(Milli(9_970).show(), "9.97");
    assert_eq!(Milli(1_005).show(), "1.005");
    assert_eq!(Milli(50).show(), "0.05");
    assert_eq!(Milli(7).show(), "0.007");
    assert_eq!(Milli(0).show(), "0");
    assert_eq!(Milli(100).show(), "0.1");
    assert_eq!(Milli(u64::MAX).show(), "18446744073709551.615");
}

#[test]
fn percentage_is_the_value_and_a_sign() {
    assert_eq!(100u8.as_percentage(), "100%");
    assert_eq!(0u8.as_percentage(), "0%");
    assert_eq!(42u64.as_percentage(), "42%");
    assert_eq!("n/a".as_percentage(), "n/a%");
}

#[test]
fn celcius_is_set_right_in_three_characters() {
    assert_eq!(100u8.as_celcius(), "100C");
    assert_eq!(65u8.as_celcius(), " 65C");
    assert_eq!(5u8.as_celcius(), "  5C");
    assert_eq!(1234u32.as_celcius(), "1234C");
    assert_eq!("".as_celcius(), "   C");
}

#[test]
fn field_name_is_name_colon_value() {
    assert_eq!(1024u32.as_field_name("Memory Used (MiB)"), "Memory Used (MiB) : 1024");
    assert_eq!(Milli(85_300).as_field_name("Power Draw (W)"), "Power Draw (W) : 85.3");
    assert_eq!("".as_field_name(""), " : ");
}

#[test]
fn long_field_name_is_set_left_in_forty_characters() {
    let s = String::from("GTX 1080").as_long_field_name("GPU");
    assert_eq!(s, format!("GPU : {:<40}", "GTX 1080"));
    assert_eq!(s.len(), 6 + 40);
    let forty = "0123456789012345678901234567890123456789";
    assert_eq!(forty.as_long_field_name("CPU"), format!("CPU : {}", forty));
    let longer = "0123456789012345678901234567890123456789+";
    assert_eq!(longer.as_long_field_name("CPU"), format!("CPU : {}", longer));
    assert_eq!("".as_long_field_name("x"), format!("x : {}", " ".repeat(40)));
}

#[test]
fn width_counts_characters_not_bytes() {
    assert_eq!("\u{e9}".as_celcius(), "  \u{e9}C");
    assert_eq!("\u{e9}".as_long_field_name("n").chars().count(), 4 + 40);
}

#[test]
fn shown_texts_agree_with_std_formatting() {
    for n in [0u32, 1, 9, 10, 11, 99, 100, 101, 999, 1000, 65535, 4294967295] {
        assert_eq!(n.show(), format!("{}", n));
        assert_eq!(n.as_percentage(), format!("{}%", n));
        assert_eq!(n.as_celcius(), format!("{:>3}C", n));
        assert_eq!(n.as_field_name("f"), format!("{} : {}", "f", n));
        assert_eq!(n.as_long_field_name("f"), format!("{} : {:<40}", "f", n));
    }
}
