use dataconnect::http::{query_param, request_path};

#[test]
fn query_param_reads_expected_value() {
    assert_eq!(
        query_param("/check-server-url?address=0xabc&x=1", "address"),
        Some("0xabc".to_string())
    );
}

#[test]
fn query_param_returns_none_for_missing_or_empty() {
    assert_eq!(query_param("/check-server-url?x=1", "address"), None);
    assert_eq!(query_param("/check-server-url?address=", "address"), None);
}

#[test]
fn query_param_skips_empty_values_and_keeps_later_equal_signs() {
    assert_eq!(query_param("/p?a=&a=5", "a"), Some("5".to_string()));
    assert_eq!(query_param("/p?a=b=c", "a"), Some("b=c".to_string()));
    assert_eq!(query_param("/p?ab=1", "a"), None);
    assert_eq!(query_param("/p?a", "a"), None);
    assert_eq!(query_param("/p", "a"), None);
    assert_eq!(query_param("/p?x=1&a=2&a=3", "a"), Some("2".to_string()));
}

#[test]
fn query_ends_at_a_second_question_mark() {
    assert_eq!(query_param("/p?a=1?b=2", "b"), None);
    assert_eq!(query_param("/p?a=1?b=2", "a"), Some("1".to_string()));
}

#[test]
fn query_param_reads_text_beyond_ascii() {
    assert_eq!(query_param("/p?naïve=café&x=1", "naïve"), Some("café".to_string()));
}

#[test]
fn request_path_stops_at_the_query() {
    assert_eq!(request_path("/auth-callback?state=1"), "/auth-callback");
    assert_eq!(request_path("/"), "/");
    assert_eq!(request_path("?x"), "");
}
