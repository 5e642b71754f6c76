use llm_local::text::{decimal_text, port_of, trim_text};

#[test]
fn trims_white_space_at_both_ends() {
    assert_eq!(trim_text(" \n\tHello there \u{3000}"), "Hello there");
    assert_eq!(trim_text(""), "");
    assert_eq!(trim_text(" \r\n "), "");
}

#[test]
fn writes_decimal_numerals() {
    assert_eq!(decimal_text(0), "0");
    assert_eq!(decimal_text(10), "10");
    assert_eq!(decimal_text(9007), "9007");
    assert_eq!(decimal_text(usize::MAX), format!("{}", usize::MAX));
}

#[test]
fn port_follows_the_last_colon() {
    assert_eq!(port_of("http://localhost:8081"), "8081");
    assert_eq!(port_of("http://localhost"), "//localhost");
    assert_eq!(port_of("localhost"), "localhost");
    assert_eq!(port_of("http://[::1]:9000"), "9000");
    assert_eq!(port_of("http://host:"), "");
    assert_eq!(port_of(""), "");
    assert_eq!(port_of("h\u{e9}:\u{1f600}1"), "\u{1f600}1");
}
