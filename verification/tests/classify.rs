use listenbrainz::error::{read_document, ApiError, Malformed};
use listenbrainz::http::Response;
use listenbrainz::raw::response::{
    answered_with, classify, expected, from_optional_response, from_response, refused_with,
    ArtGridResponse, Expected, Outcome, RateLimit, StatsUserArtistsResponse,
    SubmitListensResponse, ValidateTokenResponse,
};
use listenbrainz::Error;

fn response(status: u16, body: &str) -> Response {
    Response { status, headers: Vec::new(), body: body.to_string() }
}

fn limited(status: u16, body: &str) -> Response {
    Response {
        status,
        headers: vec![
            ("X-RateLimit-Limit".to_string(), "30".to_string()),
            ("X-RateLimit-Remaining".to_string(), "29".to_string()),
            ("X-RateLimit-Reset-In".to_string(), "10".to_string()),
            ("X-RateLimit-Reset".to_string(), "1700000010".to_string()),
        ],
        body: body.to_string(),
    }
}

const LIMIT: RateLimit = RateLimit { limit: 30, remaining: 29, reset_in: 10, reset: 1700000010 };

#[test]
fn an_error_status_with_an_error_document_is_an_api_error() {
    for status in [400u16, 401, 404, 429, 499, 500, 503, 599] {
        let outcome = classify::<SubmitListensResponse>(&response(
            status,
            r#"{"code": 401, "error": "Invalid authorization token."}"#,
        ));
        assert_eq!(
            outcome.outcome,
            Outcome::ApiError { code: 401, error: "Invalid authorization token.".to_string() }
        );
        assert_eq!(outcome.rate_limit, None);
    }
}

#[test]
fn the_api_error_holds_what_the_body_holds() {
    let result = from_response::<SubmitListensResponse>(&response(
        404,
        r#"{"error": "Cannot find user: \"nobody\"", "code": 404, "more": [1, 2]}"#,
    ));
    assert_eq!(
        result,
        Err(Error::Api { code: 404, error: "Cannot find user: \"nobody\"".to_string() })
    );
    let result = from_response::<SubmitListensResponse>(&response(
        500,
        r#"{"code": 0, "error": ""}"#,
    ));
    assert_eq!(result, Err(Error::Api { code: 0, error: String::new() }));
    let result = from_response::<SubmitListensResponse>(&response(
        400,
        r#"{"code": 65535, "error": "ü"}"#,
    ));
    assert_eq!(result, Err(Error::Api { code: 65535, error: "ü".to_string() }));
}

#[test]
fn an_error_status_with_another_body_is_a_malformed_response() {
    let bodies = [
        ("", Malformed::NotJson),
        ("Bad Gateway", Malformed::NotJson),
        ("<html></html>", Malformed::NotJson),
        (r#"{"code": 404, "error": "cut off""#, Malformed::NotJson),
        (r#"{"code": 404, "error": "trailing"} x"#, Malformed::NotJson),
        ("null", Malformed::WrongShape),
        ("[]", Malformed::WrongShape),
        ("{}", Malformed::WrongShape),
        (r#"{"code": 404}"#, Malformed::WrongShape),
        (r#"{"error": "missing code"}"#, Malformed::WrongShape),
        (r#"{"code": "404", "error": "code is a string"}"#, Malformed::WrongShape),
        (r#"{"code": 404, "error": 7}"#, Malformed::WrongShape),
        (r#"{"code": 404, "error": null}"#, Malformed::WrongShape),
        (r#"{"code": 404.5, "error": "fraction"}"#, Malformed::WrongShape),
        (r#"{"code": -1, "error": "negative"}"#, Malformed::WrongShape),
        (r#"{"code": 65536, "error": "too large"}"#, Malformed::WrongShape),
        (r#"[404, "as a list"]"#, Malformed::WrongShape),
        (r#"{"status": "ok"}"#, Malformed::WrongShape),
    ];
    for (body, why) in bodies {
        for status in [400u16, 500, 599] {
            let outcome = classify::<SubmitListensResponse>(&response(status, body));
            assert_eq!(outcome.outcome, Outcome::TransportError(why), "body {:?}", body);
            let result = from_response::<SubmitListensResponse>(&response(status, body));
            assert_eq!(result, Err(Error::ResponseJson(why)), "body {:?}", body);
            let result = from_optional_response::<StatsUserArtistsResponse>(&response(status, body));
            assert_eq!(result, Err(Error::ResponseJson(why)), "body {:?}", body);
        }
    }
}

#[test]
fn the_error_range_ends_at_399_and_at_600() {
    let error = r#"{"code": 404, "error": "not found"}"#;
    let ok = r#"{"status": "ok"}"#;
    for status in [100u16, 199, 200, 201, 299, 300, 399, 600, 999, 65535] {
        assert_eq!(
            classify::<SubmitListensResponse>(&response(status, error)).outcome,
            Outcome::TransportError(Malformed::WrongShape)
        );
        assert_eq!(
            classify::<SubmitListensResponse>(&response(status, ok)).outcome,
            Outcome::Success(SubmitListensResponse { rate_limit: None, status: "ok".to_string() })
        );
    }
    for status in [400u16, 599] {
        assert_eq!(
            classify::<SubmitListensResponse>(&response(status, ok)).outcome,
            Outcome::TransportError(Malformed::WrongShape)
        );
    }
}

#[test]
fn status_204_is_no_content() {
    for body in ["", "{}", r#"{"status": "ok"}"#, "not json"] {
        let outcome = classify::<SubmitListensResponse>(&response(204, body));
        assert_eq!(outcome.outcome, Outcome::NoContent);
    }
}

#[test]
fn statistics_without_data_are_absent_and_no_error() {
    let result = from_optional_response::<StatsUserArtistsResponse>(&response(204, ""));
    assert_eq!(result, Ok(None));
    let result = from_optional_response::<StatsUserArtistsResponse>(&limited(204, ""));
    assert_eq!(result, Ok(None));
}

#[test]
fn no_content_where_a_document_is_owed_is_a_malformed_response() {
    let result = from_response::<SubmitListensResponse>(&response(204, ""));
    assert_eq!(result, Err(Error::ResponseJson(Malformed::NoContent)));
    let result = from_response::<SubmitListensResponse>(&response(204, r#"{"status": "ok"}"#));
    assert_eq!(result, Err(Error::ResponseJson(Malformed::NoContent)));
}

#[test]
fn a_success_status_with_the_document_is_a_success() {
    let outcome = classify::<ValidateTokenResponse>(&response(
        200,
        r#"{"code": 200, "message": "Token valid.", "valid": true, "user_name": "alice"}"#,
    ));
    assert_eq!(
        outcome.outcome,
        Outcome::Success(ValidateTokenResponse {
            rate_limit: None,
            code: 200,
            message: "Token valid.".to_string(),
            valid: true,
            user_name: Some("alice".to_string()),
        })
    );
}

#[test]
fn a_success_status_with_another_body_is_a_malformed_response() {
    let bodies = [
        ("", Malformed::NotJson),
        ("ok", Malformed::NotJson),
        (r#"{"status": "ok""#, Malformed::NotJson),
        ("{}", Malformed::WrongShape),
        (r#"{"status": 1}"#, Malformed::WrongShape),
        (r#"["ok"]"#, Malformed::WrongShape),
    ];
    for (body, why) in bodies {
        let outcome = classify::<SubmitListensResponse>(&response(200, body));
        assert_eq!(outcome.outcome, Outcome::TransportError(why));
        assert_eq!(
            from_response::<SubmitListensResponse>(&response(200, body)),
            Err(Error::ResponseJson(why))
        );
    }
}

#[test]
fn the_rate_limit_comes_with_every_outcome() {
    let ok = classify::<SubmitListensResponse>(&limited(200, r#"{"status": "ok"}"#));
    assert_eq!(ok.rate_limit, Some(LIMIT));
    assert_eq!(
        ok.outcome,
        Outcome::Success(SubmitListensResponse {
            rate_limit: Some(LIMIT),
            status: "ok".to_string()
        })
    );
    let refused = classify::<SubmitListensResponse>(&limited(
        429,
        r#"{"code": 429, "error": "Too many requests."}"#,
    ));
    assert_eq!(refused.rate_limit, Some(LIMIT));
    assert!(matches!(refused.outcome, Outcome::ApiError { code: 429, .. }));
    let empty = classify::<SubmitListensResponse>(&limited(204, ""));
    assert_eq!(empty.rate_limit, Some(LIMIT));
    assert_eq!(empty.outcome, Outcome::NoContent);
    let broken = classify::<SubmitListensResponse>(&limited(200, "<html>"));
    assert_eq!(broken.rate_limit, Some(LIMIT));
    assert_eq!(broken.outcome, Outcome::TransportError(Malformed::NotJson));
}

#[test]
fn a_partial_rate_limit_is_no_rate_limit_and_no_error() {
    let mut partial = limited(200, r#"{"status": "ok"}"#);
    partial.headers.pop();
    let outcome = classify::<SubmitListensResponse>(&partial);
    assert_eq!(outcome.rate_limit, None);
    assert_eq!(
        outcome.outcome,
        Outcome::Success(SubmitListensResponse { rate_limit: None, status: "ok".to_string() })
    );
}

#[test]
fn the_typed_result_carries_the_rate_limit() {
    let result = from_response::<SubmitListensResponse>(&limited(200, r#"{"status": "ok"}"#));
    assert_eq!(
        result,
        Ok(SubmitListensResponse { rate_limit: Some(LIMIT), status: "ok".to_string() })
    );
}

#[test]
fn an_error_response_is_told_from_the_others() {
    assert_eq!(Error::try_from_error_response(&response(200, "anything")), Ok(()));
    assert_eq!(Error::try_from_error_response(&response(204, "")), Ok(()));
    assert_eq!(Error::try_from_error_response(&response(399, "")), Ok(()));
    assert_eq!(Error::try_from_error_response(&response(600, "")), Ok(()));
    assert_eq!(
        Error::try_from_error_response(&response(400, r#"{"code": 400, "error": "bad"}"#)),
        Err(Error::Api { code: 400, error: "bad".to_string() })
    );
    assert_eq!(
        Error::try_from_error_response(&response(400, "bad")),
        Err(Error::ResponseJson(Malformed::NotJson))
    );
}

#[test]
fn an_error_document_is_read() {
    assert_eq!(
        read_document::<ApiError>(r#" { "code" : 7 , "error" : "seven" } "#),
        Ok(ApiError { code: 7, error: "seven".to_string() })
    );
    assert_eq!(read_document::<ApiError>(r#"{"code": 7}"#), Err(Malformed::WrongShape));
    assert_eq!(read_document::<ApiError>("7"), Err(Malformed::WrongShape));
    assert_eq!(read_document::<ApiError>("{"), Err(Malformed::NotJson));
}

#[test]
fn a_member_that_is_written_twice_counts_as_it_is_written_last() {
    assert_eq!(
        read_document::<ApiError>(r#"{"code": 1, "error": "first", "code": 2}"#),
        Ok(ApiError { code: 2, error: "first".to_string() })
    );
}

#[test]
fn art_is_taken_as_it_is() {
    let svg = "<svg xmlns=\"http://www.w3.org/2000/svg\"></svg>";
    assert_eq!(
        ArtGridResponse::from_response(&limited(200, svg)),
        Ok(ArtGridResponse { rate_limit: Some(LIMIT), image: svg.to_string() })
    );
    assert_eq!(
        ArtGridResponse::from_response(&response(204, "")),
        Ok(ArtGridResponse { rate_limit: None, image: String::new() })
    );
    assert_eq!(
        ArtGridResponse::from_response(&response(400, r#"{"code": 400, "error": "no tiles"}"#)),
        Err(Error::Api { code: 400, error: "no tiles".to_string() })
    );
    assert_eq!(
        ArtGridResponse::from_response(&response(500, svg)),
        Err(Error::ResponseJson(Malformed::NotJson))
    );
}

#[test]
fn errors_describe_themselves() {
    assert_eq!(
        Error::Api { code: 404, error: "Cannot find user".to_string() }.to_string(),
        "API error (404): Cannot find user"
    );
    assert_eq!(Error::Api { code: 0, error: String::new() }.to_string(), "API error (0): ");
    assert_eq!(Error::RequestJson.to_string(), "could not convert request data into JSON");
    for why in [Malformed::NotJson, Malformed::WrongShape, Malformed::NoContent] {
        assert_eq!(
            Error::ResponseJson(why).to_string(),
            "could not convert response data from JSON"
        );
    }
    assert_eq!(Error::Http("connection refused".to_string()).to_string(), "HTTP error");
    assert_eq!(Error::InvalidToken.to_string(), "invalid authentication token");
    assert_eq!(Error::NotAuthenticated.to_string(), "not authenticated");
}

#[test]
fn the_status_says_what_the_body_is() {
    for status in [400u16, 401, 404, 499, 500, 599] {
        assert_eq!(expected(status), Expected::ErrorDocument);
    }
    assert_eq!(expected(204), Expected::Nothing);
    for status in [0u16, 100, 200, 201, 203, 205, 301, 399, 600, 65535] {
        assert_eq!(expected(status), Expected::Document);
    }
}

#[test]
fn what_the_body_holds_decides_the_rest() {
    assert_eq!(
        refused_with::<SubmitListensResponse>(Ok(ApiError { code: 404, error: "gone".to_string() })),
        Outcome::ApiError { code: 404, error: "gone".to_string() }
    );
    assert_eq!(
        refused_with::<SubmitListensResponse>(Err(Malformed::NotJson)),
        Outcome::TransportError(Malformed::NotJson)
    );
    assert_eq!(
        answered_with(
            Ok(SubmitListensResponse { rate_limit: None, status: "ok".to_string() }),
            Some(LIMIT)
        ),
        Outcome::Success(SubmitListensResponse { rate_limit: Some(LIMIT), status: "ok".to_string() })
    );
    assert_eq!(
        answered_with(
            Ok(SubmitListensResponse { rate_limit: Some(LIMIT), status: "ok".to_string() }),
            None
        ),
        Outcome::Success(SubmitListensResponse { rate_limit: None, status: "ok".to_string() })
    );
    assert_eq!(
        answered_with::<SubmitListensResponse>(Err(Malformed::WrongShape), Some(LIMIT)),
        Outcome::TransportError(Malformed::WrongShape)
    );
}
