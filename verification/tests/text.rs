use pve_launcher::text::{
    chars_of, contains, decimal_string, parse_port, push_decimal, split, starts_with, str_eq,
};

#[test]
fn decimal_numerals() {
    assert_eq!(decimal_string(0), "0");
    assert_eq!(decimal_string(7), "7");
    assert_eq!(decimal_string(10), "10");
    assert_eq!(decimal_string(8006), "8006");
    assert_eq!(decimal_string(4294967295), "4294967295");
    assert_eq!(decimal_string(u64::MAX), "18446744073709551615");
}

#[test]
fn decimal_is_appended() {
    let mut out = String::from("port ");
    push_decimal(&mut out, 443);
    assert_eq!(out, "port 443");
}

#[test]
fn port_numbers_are_read_like_u16() {
    assert_eq!(parse_port("8006"), Some(8006));
    assert_eq!(parse_port("0"), Some(0));
    assert_eq!(parse_port("+443"), Some(443));
    assert_eq!(parse_port("008006"), Some(8006));
    assert_eq!(parse_port("65535"), Some(65535));
    assert_eq!(parse_port("65536"), None);
    assert_eq!(parse_port("99999999999999999999"), None);
    assert_eq!(parse_port(""), None);
    assert_eq!(parse_port("+"), None);
    assert_eq!(parse_port("-1"), None);
    assert_eq!(parse_port(" 80"), None);
    assert_eq!(parse_port("80 "), None);
    assert_eq!(parse_port("8o06"), None);
    assert_eq!(parse_port("++1"), None);
    assert_eq!(parse_port("65536x"), None);
}

#[test]
fn port_numbers_agree_with_the_standard_library() {
    let samples = [
        "1", "22", "+22", "65535", "65536", "070000", "7e3", "", "+", "１２", "12_0", "0x10",
        "000000000000000000001",
    ];
    for sample in samples {
        assert_eq!(parse_port(sample), sample.parse::<u16>().ok());
    }
}

#[test]
fn text_is_searched() {
    assert!(contains("qxl-vga", "qxl"));
    assert!(contains("vga-qxl", "qxl"));
    assert!(contains("qxl", "qxl"));
    assert!(!contains("qx", "qxl"));
    assert!(!contains("std", "qxl"));
    assert!(!contains("qxqxqx", "qxl"));
    assert!(contains("anything", ""));
    assert!(contains("", ""));
    assert!(!contains("", "q"));
}

#[test]
fn prefixes_are_found() {
    assert!(starts_with("127.0.0.1", "127."));
    assert!(!starts_with("10.127.0.1", "127."));
    assert!(!starts_with("127", "127."));
    assert!(starts_with("abc", ""));
}

#[test]
fn text_is_split_with_empty_pieces_kept() {
    assert_eq!(split("a;b", ';'), vec!["a".to_string(), "b".to_string()]);
    assert_eq!(split("", ';'), vec!["".to_string()]);
    assert_eq!(split(";a;", ';'), vec!["".to_string(), "a".to_string(), "".to_string()]);
    assert_eq!(split("no separator", ';'), vec!["no separator".to_string()]);
}

#[test]
fn split_agrees_with_the_standard_library() {
    for sample in ["", ";", "a;;b", "prod;web;eu", ";;;", "é;ü"] {
        let expected: Vec<String> = sample.split(';').map(|s| s.to_string()).collect();
        assert_eq!(split(sample, ';'), expected);
    }
}

#[test]
fn characters_are_listed_in_order() {
    assert_eq!(chars_of("aé1"), vec!['a', 'é', '1']);
    assert_eq!(chars_of(""), Vec::<char>::new());
}

#[test]
fn texts_are_equal_letter_for_letter() {
    assert!(str_eq("qemu", "qemu"));
    assert!(str_eq("", ""));
    assert!(str_eq("é·ü", "é·ü"));
    assert!(!str_eq("qemu", "QEMU"));
    assert!(!str_eq("qemu", "qem"));
    assert!(!str_eq("qem", "qemu"));
    assert!(!str_eq("qemu", "qemv"));
    assert!(!str_eq("", " "));
}
