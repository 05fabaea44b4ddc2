use listenbrainz::http::Response;
use listenbrainz::raw::response::RateLimit;

fn response_with(headers: &[(&str, &str)]) -> Response {
    Response {
        status: 200,
        headers: headers.iter().map(|(name, value)| (name.to_string(), value.to_string())).collect(),
        body: String::new(),
    }
}

const ALL_FOUR: [(&str, &str); 4] = [
    ("X-RateLimit-Limit", "30"),
    ("X-RateLimit-Remaining", "29"),
    ("X-RateLimit-Reset-In", "10"),
    ("X-RateLimit-Reset", "1700000010"),
];

#[test]
fn all_four_headers_give_the_rate_limit() {
    let found = RateLimit::from_headers(&response_with(&ALL_FOUR));
    assert_eq!(
        found,
        Some(RateLimit { limit: 30, remaining: 29, reset_in: 10, reset: 1700000010 })
    );
}

#[test]
fn no_headers_give_no_rate_limit() {
    assert_eq!(RateLimit::from_headers(&response_with(&[])), None);
}

#[test]
fn one_missing_header_gives_no_rate_limit() {
    for missing in 0..4 {
        let mut headers = ALL_FOUR.to_vec();
        headers.remove(missing);
        assert_eq!(RateLimit::from_headers(&response_with(&headers)), None);
    }
}

#[test]
fn one_header_that_is_no_number_gives_no_rate_limit() {
    for broken in 0..4 {
        for value in ["", "many", "1.5", " 3", "3 ", "0x1f", "99999999999999999999"] {
            let mut headers = ALL_FOUR.to_vec();
            headers[broken].1 = value;
            assert_eq!(RateLimit::from_headers(&response_with(&headers)), None);
        }
    }
}

#[test]
fn only_the_reset_time_may_be_negative() {
    let mut headers = ALL_FOUR.to_vec();
    headers[3].1 = "-5";
    assert_eq!(
        RateLimit::from_headers(&response_with(&headers)),
        Some(RateLimit { limit: 30, remaining: 29, reset_in: 10, reset: -5 })
    );
    for unsigned in 0..3 {
        let mut headers = ALL_FOUR.to_vec();
        headers[unsigned].1 = "-5";
        assert_eq!(RateLimit::from_headers(&response_with(&headers)), None);
    }
}

#[test]
fn the_largest_numbers_are_read() {
    let found = RateLimit::from_headers(&response_with(&[
        ("X-RateLimit-Limit", "18446744073709551615"),
        ("X-RateLimit-Remaining", "0"),
        ("X-RateLimit-Reset-In", "+7"),
        ("X-RateLimit-Reset", "-9223372036854775808"),
    ]));
    assert_eq!(
        found,
        Some(RateLimit { limit: u64::MAX, remaining: 0, reset_in: 7, reset: i64::MIN })
    );
}

#[test]
fn header_names_are_found_in_any_case_and_any_order() {
    let found = RateLimit::from_headers(&response_with(&[
        ("content-type", "application/json"),
        ("x-ratelimit-reset", "4"),
        ("X-RATELIMIT-RESET-IN", "3"),
        ("x-RateLimit-remaining", "2"),
        ("x-ratelimit-limit", "1"),
    ]));
    assert_eq!(found, Some(RateLimit { limit: 1, remaining: 2, reset_in: 3, reset: 4 }));
}

#[test]
fn the_first_of_several_headers_of_one_name_counts() {
    let found = RateLimit::from_headers(&response_with(&[
        ("X-RateLimit-Limit", "1"),
        ("X-RateLimit-Limit", "100"),
        ("X-RateLimit-Remaining", "2"),
        ("X-RateLimit-Reset-In", "3"),
        ("X-RateLimit-Reset", "4"),
    ]));
    assert_eq!(found, Some(RateLimit { limit: 1, remaining: 2, reset_in: 3, reset: 4 }));
    let found = RateLimit::from_headers(&response_with(&[
        ("X-RateLimit-Limit", "none"),
        ("X-RateLimit-Limit", "100"),
        ("X-RateLimit-Remaining", "2"),
        ("X-RateLimit-Reset-In", "3"),
        ("X-RateLimit-Reset", "4"),
    ]));
    assert_eq!(found, None);
}

#[test]
fn a_header_is_looked_up_by_its_whole_name() {
    let response = response_with(&[("X-RateLimit-Limit-Extra", "1"), ("X-RateLimit", "2")]);
    assert_eq!(response.header("X-RateLimit-Limit"), None);
    assert_eq!(response.header("x-ratelimit"), Some("2"));
    assert_eq!(response.header(""), None);
}
