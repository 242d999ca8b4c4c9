use openchamber_supervisor::text::{escape_for_script, str_equal, trim_str, u16_to_string};
use openchamber_supervisor::urls::{
    build_local_url, is_nonempty_string, normalize_server_url, scheme_is_supported, BaseUrl,
};

#[test]
fn normalize_rejects_non_url() {
    assert_eq!(normalize_server_url("not a url"), None);
}

#[test]
fn normalize_strips_trailing_slash() {
    assert_eq!(
        normalize_server_url("http://host:1234/"),
        Some("http://host:1234".to_string())
    );
}

#[test]
fn normalize_rejects_other_scheme() {
    assert_eq!(normalize_server_url("ftp://host"), None);
}

#[test]
fn normalize_rejects_whitespace_only() {
    assert_eq!(normalize_server_url("  "), None);
    assert_eq!(normalize_server_url(""), None);
}

#[test]
fn normalize_trims_and_strips_many_slashes() {
    assert_eq!(
        normalize_server_url("  https://example.com///  "),
        Some("https://example.com".to_string())
    );
}

#[test]
fn normalize_accepts_https_with_path_untouched() {
    assert_eq!(
        normalize_server_url("https://example.com/api"),
        Some("https://example.com/api".to_string())
    );
}

#[test]
fn scheme_check_accepts_http_and_https_only() {
    assert!(scheme_is_supported("http"));
    assert!(scheme_is_supported("https"));
    assert!(!scheme_is_supported("ftp"));
    assert!(!scheme_is_supported("file"));
    assert!(!scheme_is_supported(""));
}

#[test]
fn nonempty_string_checks_trimmed_content() {
    assert!(!is_nonempty_string(""));
    assert!(!is_nonempty_string("   "));
    assert!(!is_nonempty_string("\t\n\r"));
    assert!(is_nonempty_string("x"));
    assert!(is_nonempty_string("  x  "));
}

#[test]
fn nonempty_string_trims_unicode_whitespace() {
    assert!(!is_nonempty_string("\u{000B}"));
    assert!(!is_nonempty_string("\u{000C}"));
    assert!(!is_nonempty_string("\u{0085}\u{00A0}"));
    assert!(!is_nonempty_string("\u{1680}\u{2000}\u{200A}\u{2028}\u{2029}"));
    assert!(!is_nonempty_string("\u{202F}\u{205F}\u{3000}"));
    assert!(is_nonempty_string("\u{00A0}x\u{3000}"));
    // Matches what the standard trim empties.
    assert_eq!(is_nonempty_string("\u{000B}"), !"\u{000B}".trim().is_empty());
    assert_eq!(is_nonempty_string("\u{2007}"), !"\u{2007}".trim().is_empty());
}

#[test]
fn normalize_trims_unicode_whitespace() {
    assert_eq!(
        normalize_server_url("\u{000C}http://host"),
        Some("http://host".to_string())
    );
    assert_eq!(
        normalize_server_url("\u{2000}http://host\u{3000}"),
        Some("http://host".to_string())
    );
    assert_eq!(normalize_server_url("\u{00A0}\u{2028}"), None);
}

#[test]
fn trim_matches_standard_trim_on_unicode_whitespace() {
    let samples = [
        "\u{0009}a\u{000B}",
        "\u{000C}b\u{000D}",
        "\u{0085}c\u{00A0}",
        "\u{1680}d\u{2006}",
        "\u{2028}e\u{2029}",
        "\u{202F}f\u{205F}\u{3000}",
        "\u{2001}\u{2002}\u{2003}",
        "plain",
    ];
    for s in samples {
        assert_eq!(trim_str(s), s.trim());
    }
}

#[test]
fn local_url_renders_port_in_decimal() {
    assert_eq!(build_local_url(0), "http://127.0.0.1:0");
    assert_eq!(build_local_url(8080), "http://127.0.0.1:8080");
    assert_eq!(build_local_url(65535), "http://127.0.0.1:65535");
}

#[test]
fn u16_decimal_rendering() {
    assert_eq!(u16_to_string(0), "0");
    assert_eq!(u16_to_string(7), "7");
    assert_eq!(u16_to_string(10), "10");
    assert_eq!(u16_to_string(12345), "12345");
    assert_eq!(u16_to_string(65535), "65535");
}

#[test]
fn trim_removes_surrounding_whitespace() {
    assert_eq!(trim_str("  a b  "), "a b");
    assert_eq!(trim_str("a"), "a");
    assert_eq!(trim_str("   "), "");
    assert_eq!(trim_str(""), "");
    assert_eq!(trim_str("\t x \r\n"), "x");
}

#[test]
fn str_equal_compares_characters() {
    assert!(str_equal("abc", "abc"));
    assert!(!str_equal("abc", "abd"));
    assert!(!str_equal("abc", "ab"));
    assert!(str_equal("", ""));
}

#[test]
fn escape_for_script_escapes_specials() {
    assert_eq!(escape_for_script(r#"C:\Users"#), r#"C:\\Users"#);
    assert_eq!(escape_for_script("say \"hi\""), "say \\\"hi\\\"");
    assert_eq!(escape_for_script("a\nb\rc"), "a\\nb\\rc");
    assert_eq!(escape_for_script("plain"), "plain");
    assert_eq!(escape_for_script(""), "");
}

#[test]
fn base_url_from_config_validates() {
    let b = BaseUrl::from_config("http://host:9999/").expect("accepted");
    assert_eq!(b.as_str(), "http://host:9999");
    assert!(BaseUrl::from_config("ftp://host").is_none());
    assert!(BaseUrl::from_config("   ").is_none());
}

#[test]
fn base_url_local_matches_build_local_url() {
    let b = BaseUrl::local(4321);
    assert_eq!(b.as_str(), "http://127.0.0.1:4321");
    assert_eq!(b.as_string(), build_local_url(4321));
    assert_eq!(b.into_string(), "http://127.0.0.1:4321");
}
