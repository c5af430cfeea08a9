use dmon_worker::url::{decimal_text, trim, Url};

#[test]
fn new_trims_host_and_route() {
    let url = Url::new("  example.org \t", Some(8080), "  /api/push \n");
    assert_eq!(url.host, "example.org");
    assert_eq!(url.port, Some(8080));
    assert_eq!(url.route, "/api/push");
}

#[test]
fn new_puts_a_slash_before_a_bare_route() {
    let url = Url::new("example.org", None, "status");
    assert_eq!(url.route, "/status");
}

#[test]
fn new_keeps_an_empty_route_as_a_slash() {
    let url = Url::new("example.org", None, "   ");
    assert_eq!(url.route, "/");
    assert_eq!(url.format(false), "http://example.org/");
}

#[test]
fn format_with_port() {
    let url = Url::new("localhost", Some(3000), "/api/workers/w1/push");
    assert_eq!(url.format(false), "http://localhost:3000/api/workers/w1/push");
    assert_eq!(url.format(true), "https://localhost:3000/api/workers/w1/push");
}

#[test]
fn format_without_port() {
    let url = Url::new("localhost", None, "x");
    assert_eq!(url.format(false), "http://localhost/x");
}

#[test]
fn to_string_uses_https() {
    let url = Url::new("h", Some(1), "r");
    assert_eq!(url.to_string(), "https://h:1/r");
}

#[test]
fn trim_agrees_with_std_on_unicode_whitespace() {
    let samples = [
        "",
        " ",
        "a",
        " a ",
        "\u{a0}a\u{3000}",
        "\u{2000}\u{200a}x y\u{2028}\u{2029}",
        "\u{85}\u{1680}q\u{202f}\u{205f}",
        "\t\n\u{b}\u{c}\r mid dle \r\n",
        "\u{200b}zero width is kept\u{200b}",
        "\u{feff}bom\u{feff}",
    ];
    for sample in samples {
        assert_eq!(trim(sample), sample.trim());
    }
}

#[test]
fn decimal_text_of_edge_values() {
    assert_eq!(decimal_text(0), "0");
    assert_eq!(decimal_text(9), "9");
    assert_eq!(decimal_text(10), "10");
    assert_eq!(decimal_text(8080), "8080");
    assert_eq!(decimal_text(65535), "65535");
}
