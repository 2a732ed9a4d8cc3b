use cloak_core::{
    blank, build_auth_url, contains_str, find_char, find_str, parse_query_param, redirect_query,
    simple_percent_encode, split_char, starts_with_str, str_eq, trim, usize_to_string,
};

#[test]
fn string_equality_is_exact() {
    assert!(str_eq("abc", "abc"));
    assert!(!str_eq("abc", "abd"));
    assert!(!str_eq("abc", "abcd"));
    assert!(str_eq("", ""));
}

#[test]
fn blank_is_whitespace_only() {
    assert!(blank(""));
    assert!(blank(" \t\r\n"));
    assert!(!blank(" x "));
}

#[test]
fn trimming_strips_both_ends() {
    assert_eq!(trim("  hello \t"), "hello");
    assert_eq!(trim("hello"), "hello");
    assert_eq!(trim("   "), "");
    assert_eq!(trim(""), "");
}

#[test]
fn substring_search_finds_first_occurrence() {
    assert_eq!(find_str("abcabc", "bc"), Some(1));
    assert_eq!(find_str("abc", "x"), None);
    assert_eq!(find_str("abc", ""), Some(0));
    assert!(contains_str("server said: url (bad)", "url ("));
    assert!(!contains_str("short", "longer needle"));
}

#[test]
fn char_search_and_prefixes() {
    assert_eq!(find_char("a=b", '='), Some(1));
    assert_eq!(find_char("ab", '='), None);
    assert!(starts_with_str("gpt-4o", "gpt-"));
    assert!(!starts_with_str("got-4o", "gpt-"));
}

#[test]
fn splitting_keeps_empty_segments() {
    let parts = split_char("a&&b&", '&');
    assert_eq!(parts, vec!["a", "", "b", ""]);
    let parts = split_char("", '&');
    assert_eq!(parts, vec![""]);
}

#[test]
fn decimal_formatting() {
    assert_eq!(usize_to_string(0), "0");
    assert_eq!(usize_to_string(7), "7");
    assert_eq!(usize_to_string(131072), "131072");
}

#[test]
fn percent_encoding_keeps_unreserved_bytes() {
    assert_eq!(simple_percent_encode("AZaz09-_.~"), "AZaz09-_.~");
}

#[test]
fn percent_encoding_escapes_reserved_bytes() {
    assert_eq!(simple_percent_encode("hello world"), "hello%20world");
    assert_eq!(simple_percent_encode("a/b?c=d"), "a%2Fb%3Fc%3Dd");
}

#[test]
fn percent_encoding_escapes_every_utf8_byte() {
    // A two-byte character becomes two escapes.
    assert_eq!(simple_percent_encode("é"), "%C3%A9");
}

#[test]
fn query_parameter_lookup() {
    assert_eq!(parse_query_param("code=abc&state=xyz", "code"), Some("abc".to_string()));
    assert_eq!(parse_query_param("code=abc&state=xyz", "state"), Some("xyz".to_string()));
    assert_eq!(parse_query_param("code=abc&state=xyz", "scope"), None);
    assert_eq!(parse_query_param("", "code"), None);
}

#[test]
fn query_parameter_decodes_plus_as_space() {
    assert_eq!(parse_query_param("error=access+denied", "error"), Some("access denied".to_string()));
}

#[test]
fn query_parameter_takes_first_match_and_splits_at_first_equals() {
    assert_eq!(parse_query_param("k=1&k=2", "k"), Some("1".to_string()));
    assert_eq!(parse_query_param("k=a=b", "k"), Some("a=b".to_string()));
    assert_eq!(parse_query_param("lonely&k=v", "k"), Some("v".to_string()));
}

#[test]
fn auth_url_is_assembled_exactly() {
    let url = build_auth_url("my-client", "http://127.0.0.1:8002", "scope one", "st4te");
    assert_eq!(
        url,
        "https://accounts.google.com/o/oauth2/v2/auth?client_id=my-client\
         &redirect_uri=http%3A%2F%2F127.0.0.1%3A8002&response_type=code\
         &scope=scope%20one&state=st4te&access_type=offline&prompt=consent"
    );
}

#[test]
fn redirect_query_extraction() {
    let request = "GET /?code=abc&state=xyz HTTP/1.1\r\nHost: 127.0.0.1\r\n\r\n";
    assert_eq!(redirect_query(request), "code=abc&state=xyz");
    let request = "GET / HTTP/1.1\r\n";
    assert_eq!(redirect_query(request), "");
}
