use listenbrainz::error::Malformed;
use listenbrainz::http::Method;
use listenbrainz::raw::request::ListenType;
use listenbrainz::raw::response::ValidateTokenResponse;
use listenbrainz::{Error, ListenBrainz};

fn validation(valid: bool, user_name: Option<&str>) -> Result<ValidateTokenResponse, Error> {
    Ok(ValidateTokenResponse {
        rate_limit: None,
        code: 200,
        message: if valid { "Token valid.".to_string() } else { "Token invalid.".to_string() },
        valid,
        user_name: user_name.map(|name| name.to_string()),
    })
}

fn assert_unauthenticated(client: &ListenBrainz) {
    assert!(!client.is_authenticated());
    assert_eq!(client.authenticated_token(), None);
    assert_eq!(client.authenticated_user(), None);
    assert_eq!(client.listen("a", "t", None, 1).unwrap_err(), Error::NotAuthenticated);
    assert_eq!(client.import("a", "t", None, 1).unwrap_err(), Error::NotAuthenticated);
    assert_eq!(client.playing_now("a", "t", None).unwrap_err(), Error::NotAuthenticated);
}

#[test]
fn a_new_client_is_not_authenticated() {
    let client = ListenBrainz::new();
    assert_eq!(client.api_url(), "https://api.listenbrainz.org/1/");
    assert_eq!(client.client().api_url(), "https://api.listenbrainz.org/1/");
    assert_unauthenticated(&client);
    let client = ListenBrainz::new_with_url("http://localhost:8100/1/");
    assert_eq!(client.api_url(), "http://localhost:8100/1/");
    assert_unauthenticated(&client);
}

#[test]
fn a_valid_token_authenticates() {
    let mut client = ListenBrainz::new();
    assert_eq!(client.authenticate("secret", validation(true, Some("alice"))), Ok(()));
    assert!(client.is_authenticated());
    assert_eq!(client.authenticated_token(), Some("secret"));
    assert_eq!(client.authenticated_user(), Some("alice"));
}

#[test]
fn an_invalid_token_does_not_authenticate() {
    let mut client = ListenBrainz::new();
    assert_eq!(client.authenticate("wrong", validation(false, None)), Err(Error::InvalidToken));
    assert_unauthenticated(&client);
    assert_eq!(
        client.authenticate("wrong", validation(false, Some("alice"))),
        Err(Error::InvalidToken)
    );
    assert_unauthenticated(&client);
}

#[test]
fn a_valid_token_without_a_user_does_not_authenticate() {
    let mut client = ListenBrainz::new();
    assert_eq!(client.authenticate("odd", validation(true, None)), Err(Error::InvalidToken));
    assert_unauthenticated(&client);
    assert_eq!(client.authenticate("odd", validation(true, Some(""))), Err(Error::InvalidToken));
    assert_unauthenticated(&client);
}

#[test]
fn a_failed_validation_is_handed_on() {
    let mut client = ListenBrainz::new();
    let failures = [
        Error::Http("connection refused".to_string()),
        Error::ResponseJson(Malformed::NotJson),
        Error::ResponseJson(Malformed::NoContent),
        Error::Api { code: 500, error: "Internal server error".to_string() },
    ];
    for failure in failures {
        assert_eq!(client.authenticate("secret", Err(failure.clone())), Err(failure));
        assert_unauthenticated(&client);
    }
}

#[test]
fn a_second_token_takes_the_place_of_the_first() {
    let mut client = ListenBrainz::new();
    client.authenticate("first", validation(true, Some("alice"))).unwrap();
    client.authenticate("second", validation(true, Some("bob"))).unwrap();
    assert_eq!(client.authenticated_token(), Some("second"));
    assert_eq!(client.authenticated_user(), Some("bob"));
}

#[test]
fn a_failed_attempt_keeps_the_earlier_authentication() {
    let mut client = ListenBrainz::new();
    client.authenticate("first", validation(true, Some("alice"))).unwrap();
    assert_eq!(client.authenticate("second", validation(false, None)), Err(Error::InvalidToken));
    assert_eq!(
        client.authenticate("third", Err(Error::Http("timeout".to_string()))),
        Err(Error::Http("timeout".to_string()))
    );
    assert_eq!(client.authenticated_token(), Some("first"));
    assert_eq!(client.authenticated_user(), Some("alice"));
    assert_eq!(client.playing_now("a", "t", None).unwrap().request.token.as_deref(), Some("first"));
}

#[test]
fn a_listen_is_submitted_with_the_time_that_is_given_as_now() {
    let mut client = ListenBrainz::new();
    client.authenticate("secret", validation(true, Some("alice"))).unwrap();
    let call = client.listen("Rick Astley", "Never Gonna Give You Up", None, 1700000000).unwrap();
    assert_eq!(call.request.method, Method::Post);
    assert_eq!(call.request.url, "https://api.listenbrainz.org/1/submit-listens");
    assert_eq!(call.request.token.as_deref(), Some("secret"));
    assert_eq!(call.request.authorization().as_deref(), Some("Token secret"));
    assert_eq!(
        call.request.body.as_deref(),
        Some(
            r#"{"listen_type":"single","payload":[{"listened_at":1700000000,"track_metadata":{"artist_name":"Rick Astley","track_name":"Never Gonna Give You Up"}}]}"#
        )
    );
}

#[test]
fn an_import_is_submitted_with_its_own_time() {
    let mut client = ListenBrainz::new_with_url("http://localhost/1/");
    client.authenticate("secret", validation(true, Some("alice"))).unwrap();
    let call = client.import("Lymbyc Systym", "Split Stones", Some("Split Stones"), -86400).unwrap();
    assert_eq!(call.request.url, "http://localhost/1/submit-listens");
    assert_eq!(
        call.request.body.as_deref(),
        Some(
            r#"{"listen_type":"import","payload":[{"listened_at":-86400,"track_metadata":{"artist_name":"Lymbyc Systym","release_name":"Split Stones","track_name":"Split Stones"}}]}"#
        )
    );
}

#[test]
fn what_is_playing_now_is_submitted_without_a_time() {
    let mut client = ListenBrainz::new();
    client.authenticate("secret", validation(true, Some("alice"))).unwrap();
    let call = client.playing_now("The Beatles", "Here Comes the Sun", Some("Abbey Road")).unwrap();
    let body = call.request.body.unwrap();
    assert_eq!(
        body,
        r#"{"listen_type":"playing_now","payload":[{"track_metadata":{"artist_name":"The Beatles","release_name":"Abbey Road","track_name":"Here Comes the Sun"}}]}"#
    );
    assert!(!body.contains("listened_at"));
}

#[test]
fn a_submission_is_finished_like_any_other() {
    let mut client = ListenBrainz::new();
    client.authenticate("secret", validation(true, Some("alice"))).unwrap();
    let call = client.playing_now("a", "t", None).unwrap();
    let response = listenbrainz::http::Response {
        status: 200,
        headers: Vec::new(),
        body: r#"{"status":"ok"}"#.to_string(),
    };
    assert_eq!(call.finish(&response).unwrap().status, "ok");
}

#[test]
fn a_client_by_default_is_not_authenticated() {
    let client = ListenBrainz::default();
    assert_eq!(client, ListenBrainz::new());
    assert_unauthenticated(&client);
}

#[test]
fn one_listen_is_submitted_as_its_listen_type_has_it() {
    let mut client = ListenBrainz::new();
    for listen_type in [ListenType::Single, ListenType::PlayingNow, ListenType::Import] {
        assert_eq!(
            client.submit_listen(listen_type, Some(7), "a", "t", None).unwrap_err(),
            Error::NotAuthenticated
        );
    }
    client.authenticate("secret", validation(true, Some("alice"))).unwrap();
    let body = |listen_type, timestamp| {
        let call = client.submit_listen(listen_type, timestamp, "a", "t", Some("r")).unwrap();
        assert_eq!(call.request.method, Method::Post);
        assert_eq!(call.request.url, "https://api.listenbrainz.org/1/submit-listens");
        assert_eq!(call.request.authorization().as_deref(), Some("Token secret"));
        call.request.body.unwrap()
    };
    let metadata = r#""track_metadata":{"artist_name":"a","release_name":"r","track_name":"t"}"#;
    assert_eq!(
        body(ListenType::Single, Some(7)),
        format!(r#"{{"listen_type":"single","payload":[{{"listened_at":7,{}}}]}}"#, metadata)
    );
    assert_eq!(
        body(ListenType::Import, Some(-7)),
        format!(r#"{{"listen_type":"import","payload":[{{"listened_at":-7,{}}}]}}"#, metadata)
    );
    assert_eq!(
        body(ListenType::Import, None),
        format!(r#"{{"listen_type":"import","payload":[{{{}}}]}}"#, metadata)
    );
    assert_eq!(
        body(ListenType::PlayingNow, None),
        format!(r#"{{"listen_type":"playing_now","payload":[{{{}}}]}}"#, metadata)
    );
    assert_eq!(
        body(ListenType::PlayingNow, Some(7)),
        format!(r#"{{"listen_type":"playing_now","payload":[{{{}}}]}}"#, metadata)
    );
}
