use posts_api::config::{init_config, parse_port};

#[test]
fn a_plain_number_is_a_port() {
    assert_eq!(parse_port("3000"), Some(3000));
    assert_eq!(parse_port("0"), Some(0));
    assert_eq!(parse_port("80"), Some(80));
}

#[test]
fn a_leading_plus_is_allowed() {
    assert_eq!(parse_port("+80"), Some(80));
}

#[test]
fn leading_zeros_do_not_count() {
    assert_eq!(parse_port("00080"), Some(80));
    assert_eq!(parse_port("000000000000000000000000000000000000000001"), Some(1));
}

#[test]
fn the_largest_port_is_65535() {
    assert_eq!(parse_port("65535"), Some(65535));
    assert_eq!(parse_port("65536"), None);
    assert_eq!(parse_port("99999999999999999999999999"), None);
}

#[test]
fn text_without_digits_is_no_port() {
    assert_eq!(parse_port(""), None);
    assert_eq!(parse_port("+"), None);
    assert_eq!(parse_port("-"), None);
}

#[test]
fn anything_but_digits_is_refused() {
    assert_eq!(parse_port("-1"), None);
    assert_eq!(parse_port(" 80"), None);
    assert_eq!(parse_port("80 "), None);
    assert_eq!(parse_port("8a"), None);
    assert_eq!(parse_port("++80"), None);
    assert_eq!(parse_port("8+0"), None);
    assert_eq!(parse_port("٣"), None);
}

#[test]
fn parse_port_agrees_with_the_standard_parser() {
    let samples = [
        "", "+", "-", "0", "1", "+1", "-0", "65535", "65536", "+65535", "0065535", "12a", "a12",
        "1 2", "٣", "4294967296", "+-1",
    ];
    for text in samples {
        assert_eq!(parse_port(text), text.parse::<u16>().ok(), "for {:?}", text);
    }
}

#[test]
fn values_that_are_found_are_taken_as_they_are() {
    let config = init_config(
        Some(String::from("0.0.0.0")),
        Some(String::from("8080")),
        Some(String::from("postgres://localhost/posts")),
    );
    assert_eq!(config.server_host(), "0.0.0.0");
    assert_eq!(config.server_port(), 8080);
    assert_eq!(config.db_url(), "postgres://localhost/posts");
}

#[test]
fn host_and_port_have_defaults() {
    let config = init_config(None, None, Some(String::from("postgres://db")));
    assert_eq!(config.server_host(), "127.0.0.1");
    assert_eq!(config.server_port(), 3000);
    assert_eq!(config.db_url(), "postgres://db");
}

#[test]
fn each_default_stands_alone() {
    let config = init_config(Some(String::from("example.org")), None, Some(String::from("u")));
    assert_eq!(config.server_host(), "example.org");
    assert_eq!(config.server_port(), 3000);
    let config = init_config(None, Some(String::from("+65535")), Some(String::from("u")));
    assert_eq!(config.server_host(), "127.0.0.1");
    assert_eq!(config.server_port(), 65535);
}

#[test]
fn an_empty_host_is_a_host() {
    let config = init_config(Some(String::new()), Some(String::from("0")), Some(String::new()));
    assert_eq!(config.server_host(), "");
    assert_eq!(config.server_port(), 0);
    assert_eq!(config.db_url(), "");
}
