use listenbrainz::http::{Method, Request, Response};
use listenbrainz::raw::client::API_ROOT_URL;
use listenbrainz::raw::endpoint::Endpoint;
use listenbrainz::raw::request::{
    DeleteListen, ListenType, Payload, SubmitListens, TrackMetadata, UpdateLatestImport,
};
use listenbrainz::raw::response::{
    RateLimit, StatsUserArtistsResponse, SubmitListensResponse, UserListenCountResponse,
};
use listenbrainz::raw::Client;
use listenbrainz::Error;

fn get(url: &str, query: &[(&str, &str)]) -> Request {
    Request {
        method: Method::Get,
        url: url.to_string(),
        query: query.iter().map(|(name, value)| (name.to_string(), value.to_string())).collect(),
        token: None,
        body: None,
    }
}

fn post(url: &str, token: &str, body: &str) -> Request {
    Request {
        method: Method::Post,
        url: url.to_string(),
        query: Vec::new(),
        token: Some(token.to_string()),
        body: Some(body.to_string()),
    }
}

fn answer(status: u16, body: &str) -> Response {
    Response { status, headers: Vec::new(), body: body.to_string() }
}

fn one_listen(listened_at: Option<i64>, release: Option<&str>) -> Payload {
    Payload {
        listened_at,
        track_metadata: TrackMetadata {
            track_name: "Never Gonna Give You Up".to_string(),
            artist_name: "Rick Astley".to_string(),
            release_name: release.map(|name| name.to_string()),
            additional_info: None,
        },
    }
}

#[test]
fn the_api_root_defaults_to_the_production_service() {
    assert_eq!(API_ROOT_URL, "https://api.listenbrainz.org/1/");
    assert_eq!(Client::new().api_url(), "https://api.listenbrainz.org/1/");
}

#[test]
fn the_api_root_can_be_set() {
    let client = Client::new_with_url("http://maloja.example.com/apis/listenbrainz/1/");
    assert_eq!(client.api_url(), "http://maloja.example.com/apis/listenbrainz/1/");
    assert_eq!(
        client.user_listen_count("alice").request,
        get("http://maloja.example.com/apis/listenbrainz/1/user/alice/listen-count", &[])
    );
    assert_eq!(
        client.stats_user_daily_activity("alice", None).request.url,
        "http://maloja.example.com/apis/listenbrainz/1/stats/user/alice/daily-activity"
    );
    assert_eq!(
        client.stats_user_listening_activity("alice", None).request.url,
        "http://maloja.example.com/apis/listenbrainz/1/stats/user/alice/listening-activity"
    );
    assert_eq!(
        client.stats_user_artist_map("alice", None, None).request.url,
        "http://maloja.example.com/apis/listenbrainz/1/stats/user/alice/artist-map"
    );
}

#[test]
fn a_single_listen_from_submission_to_answer() {
    let client = Client::new();
    let data = SubmitListens {
        listen_type: ListenType::Single,
        payload: vec![one_listen(Some(1700000000), None)],
    };
    let call = client.submit_listens("token", data).unwrap();
    assert_eq!(call.request.method, Method::Post);
    assert_eq!(call.request.url, "https://api.listenbrainz.org/1/submit-listens");
    assert_eq!(call.request.query, Vec::<(String, String)>::new());
    assert_eq!(call.request.token, Some("token".to_string()));
    assert_eq!(call.request.authorization(), Some("Token token".to_string()));
    assert_eq!(
        call.request.body.as_deref(),
        Some(
            r#"{"listen_type":"single","payload":[{"listened_at":1700000000,"track_metadata":{"artist_name":"Rick Astley","track_name":"Never Gonna Give You Up"}}]}"#
        )
    );
    let done = call.finish(&answer(200, r#"{"status":"ok"}"#)).unwrap();
    assert_eq!(done.status, "ok");
    assert_eq!(done.rate_limit, None);
}

#[test]
fn a_listen_that_is_playing_now_is_written_without_a_time() {
    let data = SubmitListens {
        listen_type: ListenType::PlayingNow,
        payload: vec![one_listen(None, Some("Whenever You Need Somebody"))],
    };
    let call = Client::new().submit_listens("token", data).unwrap();
    assert_eq!(
        call.request.body.as_deref(),
        Some(
            r#"{"listen_type":"playing_now","payload":[{"track_metadata":{"artist_name":"Rick Astley","release_name":"Whenever You Need Somebody","track_name":"Never Gonna Give You Up"}}]}"#
        )
    );
}

#[test]
fn a_listen_that_is_playing_now_is_written_without_the_time_that_it_holds() {
    let data = SubmitListens {
        listen_type: ListenType::PlayingNow,
        payload: vec![one_listen(Some(1700000000), None), one_listen(None, None), one_listen(Some(0), None)],
    };
    let call = Client::new().submit_listens("token", data).unwrap();
    let body = call.request.body.unwrap();
    let item = r#"{"track_metadata":{"artist_name":"Rick Astley","track_name":"Never Gonna Give You Up"}}"#;
    assert_eq!(body, format!(r#"{{"listen_type":"playing_now","payload":[{0},{0},{0}]}}"#, item));
    assert!(!body.contains("listened_at"));
    assert!(!body.contains("1700000000"));
}

#[test]
fn a_single_listen_without_a_time_is_written_without_one() {
    let data = SubmitListens { listen_type: ListenType::Single, payload: vec![one_listen(None, None)] };
    let body = Client::new().submit_listens("token", data).unwrap().request.body.unwrap();
    assert!(!body.contains("listened_at"));
    assert!(body.starts_with(r#"{"listen_type":"single","payload":[{"track_metadata":"#));
}

#[test]
fn imported_listens_are_written_with_their_times() {
    let data = SubmitListens {
        listen_type: ListenType::Import,
        payload: vec![one_listen(Some(0), None), one_listen(Some(-1), None), one_listen(Some(i64::MAX), None)],
    };
    let body = Client::new().submit_listens("token", data).unwrap().request.body.unwrap();
    assert!(body.starts_with(r#"{"listen_type":"import","payload":[{"listened_at":0,"#));
    assert!(body.contains(r#"{"listened_at":-1,"#));
    assert!(body.contains(r#"{"listened_at":9223372036854775807,"#));
    assert_eq!(body.matches("listened_at").count(), 3);
}

#[test]
fn a_submission_without_listens() {
    let data = SubmitListens { listen_type: ListenType::Import, payload: Vec::new() };
    let call = Client::new().submit_listens("t", data).unwrap();
    assert_eq!(call.request.body.as_deref(), Some(r#"{"listen_type":"import","payload":[]}"#));
}

#[test]
fn additional_info_is_written_as_it_is() {
    let mut info = serde_json::Map::new();
    info.insert("tracknumber".to_string(), serde_json::Value::from(7u64));
    info.insert("tags".to_string(), serde_json::Value::from(vec!["pop", "80s"]));
    info.insert("rating".to_string(), serde_json::Value::from(4.5));
    let mut listen = one_listen(Some(1), None);
    listen.track_metadata.additional_info = Some(info);
    let data = SubmitListens { listen_type: ListenType::Single, payload: vec![listen] };
    let call = Client::new().submit_listens("t", data).unwrap();
    assert_eq!(
        call.request.body.as_deref(),
        Some(
            r#"{"listen_type":"single","payload":[{"listened_at":1,"track_metadata":{"additional_info":{"rating":4.5,"tags":["pop","80s"],"tracknumber":7},"artist_name":"Rick Astley","track_name":"Never Gonna Give You Up"}}]}"#
        )
    );
}

#[test]
fn text_is_escaped_in_the_body() {
    let listen = Payload {
        listened_at: None,
        track_metadata: TrackMetadata {
            track_name: "say \"hi\"\n".to_string(),
            artist_name: "back\\slash".to_string(),
            release_name: None,
            additional_info: None,
        },
    };
    let data = SubmitListens { listen_type: ListenType::PlayingNow, payload: vec![listen] };
    let call = Client::new().submit_listens("t", data).unwrap();
    assert_eq!(
        call.request.body.as_deref(),
        Some(
            r#"{"listen_type":"playing_now","payload":[{"track_metadata":{"artist_name":"back\\slash","track_name":"say \"hi\"\n"}}]}"#
        )
    );
}

#[test]
fn the_token_is_validated_in_its_own_name() {
    let call = Client::new().validate_token("abc");
    assert_eq!(
        call.request,
        Request {
            method: Method::Get,
            url: "https://api.listenbrainz.org/1/validate-token".to_string(),
            query: Vec::new(),
            token: Some("abc".to_string()),
            body: None,
        }
    );
    assert_eq!(call.request.authorization(), Some("Token abc".to_string()));
    let done = call
        .finish(&answer(200, r#"{"code":200,"message":"Token valid.","valid":true,"user_name":"alice"}"#))
        .unwrap();
    assert!(done.valid);
    assert_eq!(done.user_name.as_deref(), Some("alice"));
}

#[test]
fn a_request_without_a_token_has_no_authorization() {
    assert_eq!(Client::new().user_listen_count("alice").request.authorization(), None);
}

#[test]
fn a_listen_is_deleted() {
    let data = DeleteListen { listened_at: 1700000000, recording_msid: "d23f4719".to_string() };
    let call = Client::new().delete_listen("secret", data).unwrap();
    assert_eq!(
        call.request,
        post(
            "https://api.listenbrainz.org/1/delete-listen",
            "secret",
            r#"{"listened_at":1700000000,"recording_msid":"d23f4719"}"#
        )
    );
    assert_eq!(call.finish(&answer(200, r#"{"status":"ok"}"#)).unwrap().status, "ok");
}

#[test]
fn the_latest_import_is_updated() {
    let call = Client::new().update_latest_import("secret", UpdateLatestImport { ts: -3 }).unwrap();
    assert_eq!(
        call.request,
        post("https://api.listenbrainz.org/1/latest-import", "secret", r#"{"ts":-3}"#)
    );
}

#[test]
fn the_latest_import_is_asked_for() {
    let call = Client::new().get_latest_import("alice & bob");
    assert_eq!(
        call.request,
        get("https://api.listenbrainz.org/1/latest-import", &[("user_name", "alice & bob")])
    );
    let done = call.finish(&answer(200, r#"{"latest_import":5,"musicbrainz_id":"alice"}"#)).unwrap();
    assert_eq!(done.latest_import, 5);
    assert_eq!(done.musicbrainz_id, "alice");
}

#[test]
fn recent_listens_of_several_users() {
    let call = Client::new().users_recent_listens(&["a,b", "c"]);
    assert_eq!(call.request, get("https://api.listenbrainz.org/1/users/a%2Cb,c/recent-listens", &[]));
}

#[test]
fn the_listen_count_of_a_user() {
    let call = Client::new().user_listen_count("alice");
    assert_eq!(call.request, get("https://api.listenbrainz.org/1/user/alice/listen-count", &[]));
    let done: UserListenCountResponse = call.finish(&answer(200, r#"{"payload":{"count":12}}"#)).unwrap();
    assert_eq!(done.payload.count, 12);
}

#[test]
fn what_a_user_is_playing_now() {
    let call = Client::new().user_playing_now("alice");
    assert_eq!(call.request, get("https://api.listenbrainz.org/1/user/alice/playing-now", &[]));
}

#[test]
fn the_listens_of_a_user_without_refinement() {
    let call = Client::new().user_listens("alice", None, None, None, None);
    assert_eq!(call.request, get("https://api.listenbrainz.org/1/user/alice/listens", &[]));
}

#[test]
fn the_listens_of_a_user_with_every_refinement() {
    let call = Client::new().user_listens("alice", Some(-5), Some(1700000000), Some(100), Some(3));
    assert_eq!(
        call.request,
        get(
            "https://api.listenbrainz.org/1/user/alice/listens",
            &[("min_ts", "-5"), ("max_ts", "1700000000"), ("count", "100"), ("time_range", "3")]
        )
    );
}

#[test]
fn a_parameter_without_a_value_is_not_sent() {
    let call = Client::new().user_listens("alice", None, Some(0), None, Some(u64::MAX));
    assert_eq!(
        call.request.query,
        vec![
            ("max_ts".to_string(), "0".to_string()),
            ("time_range".to_string(), "18446744073709551615".to_string())
        ]
    );
}

#[test]
fn live_test_retrieve_listens() {
    let call = Client::new().user_listens("rustynova", None, None, Some(900), None);
    assert_eq!(
        call.request,
        get("https://api.listenbrainz.org/1/user/rustynova/listens", &[("count", "900")])
    );
    let listens = call
        .finish(&answer(
            200,
            r#"{"payload":{"count":900,"latest_listen_ts":1700000000,"oldest_listen_ts":1500000000,"user_id":"rustynova","listens":[]}}"#,
        ))
        .unwrap();

    assert_eq!(listens.payload.count, 900)
}

#[test]
fn sitewide_artists() {
    let client = Client::new();
    assert_eq!(
        client.stats_sitewide_artists(None, None, None).request,
        get("https://api.listenbrainz.org/1/stats/sitewide/artists", &[])
    );
    assert_eq!(
        client.stats_sitewide_artists(Some(10), Some(20), Some("week")).request,
        get(
            "https://api.listenbrainz.org/1/stats/sitewide/artists",
            &[("count", "10"), ("offset", "20"), ("range", "week")]
        )
    );
    assert_eq!(
        client.stats_sitewide_artists(None, Some(0), None).request.query,
        vec![("offset".to_string(), "0".to_string())]
    );
}

#[test]
fn statistics_of_a_user() {
    let client = Client::new();
    let root = "https://api.listenbrainz.org/1/stats/user/alice/";
    assert_eq!(
        client.stats_user_listening_activity("alice", Some("month")).request,
        get(&format!("{}listening-activity", root), &[("range", "month")])
    );
    assert_eq!(
        client.stats_user_daily_activity("alice", None).request,
        get(&format!("{}daily-activity", root), &[])
    );
    assert_eq!(
        client.stats_user_recordings("alice", Some(1), None, Some("")).request,
        get(&format!("{}recordings", root), &[("count", "1"), ("range", "")])
    );
    assert_eq!(
        client.stats_user_artist_map("alice", Some("year"), Some(true)).request,
        get(&format!("{}artist-map", root), &[("range", "year"), ("force_recalculate", "true")])
    );
    assert_eq!(
        client.stats_user_artist_map("alice", None, Some(false)).request,
        get(&format!("{}artist-map", root), &[("force_recalculate", "false")])
    );
    assert_eq!(
        client.stats_user_releases("alice", None, Some(7), None).request,
        get(&format!("{}releases", root), &[("offset", "7")])
    );
    assert_eq!(
        client.stats_user_artists("alice", Some(2), Some(3), Some("all_time")).request,
        get(&format!("{}artists", root), &[("count", "2"), ("offset", "3"), ("range", "all_time")])
    );
}

#[test]
fn listeners_of_a_release_group() {
    let call = Client::new().stats_release_group_listeners("mbid", Some("week"));
    assert_eq!(
        call.request,
        get("https://api.listenbrainz.org/1/stats/release-group/mbid/listeners", &[("range", "week")])
    );
    assert_eq!(
        Client::new().stats_release_group_listeners("mbid", None).request.query,
        Vec::<(String, String)>::new()
    );
}

#[test]
fn statistics_without_data_finish_as_absent() {
    let call = Client::new().stats_user_artists("alice", None, None, None);
    assert_eq!(call.finish(&answer(204, "")).unwrap(), None);
    let refused = call.finish(&answer(404, r#"{"code":404,"error":"Cannot find user: alice"}"#));
    assert_eq!(
        refused,
        Err(Error::Api { code: 404, error: "Cannot find user: alice".to_string() })
    );
}

#[test]
fn statistics_with_data_finish_with_the_data() {
    let call = Client::new().stats_user_artist_map("alice", None, None);
    let response = Response {
        status: 200,
        headers: vec![
            ("x-ratelimit-limit".to_string(), "30".to_string()),
            ("x-ratelimit-remaining".to_string(), "28".to_string()),
            ("x-ratelimit-reset-in".to_string(), "9".to_string()),
            ("x-ratelimit-reset".to_string(), "1700000009".to_string()),
        ],
        body: r#"{"payload":{"artist_map":[{"country":"GBR","artist_count":3}],"user_id":"alice","from_ts":1,"to_ts":2,"last_updated":3,"range":"all_time"}}"#.to_string(),
    };
    let done = call.finish(&response).unwrap().unwrap();
    assert_eq!(
        done.rate_limit,
        Some(RateLimit { limit: 30, remaining: 28, reset_in: 9, reset: 1700000009 })
    );
    assert_eq!(done.payload.artist_map.len(), 1);
    assert_eq!(done.payload.artist_map[0].country, "GBR");
    assert_eq!(done.payload.artist_map[0].artist_count, 3);
    assert_eq!(done.payload.range, "all_time");
}

#[test]
fn dump_info() {
    assert_eq!(
        Client::new().status_get_dump_info(None).request,
        get("https://api.listenbrainz.org/1/status/get-dump-info", &[])
    );
    assert_eq!(
        Client::new().status_get_dump_info(Some(42)).request,
        get("https://api.listenbrainz.org/1/status/get-dump-info", &[("id", "42")])
    );
    let done = Client::new()
        .status_get_dump_info(Some(42))
        .finish(&answer(200, r#"{"code":200,"message":"ok","id":42,"timestamp":"20240101-000000"}"#))
        .unwrap();
    assert_eq!(done.id, 42);
    assert_eq!(done.timestamp, "20240101-000000");
}

#[test]
fn a_refused_submission_finishes_with_the_api_error() {
    let data = SubmitListens { listen_type: ListenType::Single, payload: vec![one_listen(Some(1), None)] };
    let call = Client::new().submit_listens("wrong", data).unwrap();
    let done: Result<SubmitListensResponse, Error> =
        call.finish(&answer(401, r#"{"code":401,"error":"Invalid authorization token."}"#));
    assert_eq!(
        done,
        Err(Error::Api { code: 401, error: "Invalid authorization token.".to_string() })
    );
}

#[test]
fn data_that_could_not_be_written_prepare_no_request() {
    let client = Client::new();
    let none = client.post_body::<SubmitListensResponse>(Endpoint::SubmitListens, "t", None);
    assert_eq!(none.unwrap_err(), Error::RequestJson);
    let some = client
        .post_body::<SubmitListensResponse>(Endpoint::DeleteListen, "t", Some("{}".to_string()))
        .unwrap();
    assert_eq!(some.request, post("https://api.listenbrainz.org/1/delete-listen", "t", "{}"));
}

#[test]
fn a_client_by_default_is_a_new_client() {
    assert_eq!(Client::default(), Client::new());
    assert_eq!(Client::default().api_url(), API_ROOT_URL);
}

#[test]
fn the_shared_statistics_request() {
    let client = Client::new();
    let call =
        client.get_stats::<StatsUserArtistsResponse>(Endpoint::StatsUserArtists("alice"), Some(5), None, Some("week"));
    assert_eq!(
        call.request,
        get("https://api.listenbrainz.org/1/stats/user/alice/artists", &[("count", "5"), ("range", "week")])
    );
    assert_eq!(call.finish(&answer(204, "")), Ok(None));
    assert_eq!(call.finish(&answer(204, "not even JSON")), Ok(None));
    let bare = client.get_stats::<StatsUserArtistsResponse>(Endpoint::StatsSitewideArtists, None, None, None);
    assert_eq!(bare.request, get("https://api.listenbrainz.org/1/stats/sitewide/artists", &[]));
}
