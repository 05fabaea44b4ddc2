use listenbrainz::codec::FromJson;
use listenbrainz::error::{read_document, Malformed};
use listenbrainz::raw::jspf::{AdditionalMetadata, AlgorithmMetadata, Playlist};
use listenbrainz::raw::response::{
    GetPlaylistResponse, StatsReleaseGroupListenersResponse, StatsSitewideArtistsResponse,
    StatsSitewideArtistsTimeRange, StatsUserDailyActivityHour, StatsUserDailyActivityResponse,
    StatsUserListeningActivityResponse, StatsUserRecordingsResponse, StatsUserReleasesResponse,
    UserFollowersResponse, UserListensResponse, UserPlayingNowResponse, UserPlaylistsResponse,
    UsersRecentListensResponse, ValidateTokenResponse,
};

/// Reads a document and drops the reason of a failure.
fn document<T: FromJson>(text: &str) -> Option<T> {
    read_document::<T>(text).ok()
}

#[test]
fn a_failure_says_whether_the_text_or_the_shape_is_wrong() {
    assert_eq!(read_document::<u64>("7"), Ok(7));
    assert_eq!(read_document::<u64>("seven"), Err(Malformed::NotJson));
    assert_eq!(read_document::<u64>(""), Err(Malformed::NotJson));
    assert_eq!(read_document::<u64>("7,"), Err(Malformed::NotJson));
    assert_eq!(read_document::<u64>("\"7\""), Err(Malformed::WrongShape));
    assert_eq!(read_document::<u64>("-7"), Err(Malformed::WrongShape));
    assert_eq!(read_document::<Vec<u64>>("[1, 2"), Err(Malformed::NotJson));
    assert_eq!(read_document::<Vec<u64>>("[1, null]"), Err(Malformed::WrongShape));
    assert_eq!(
        read_document::<UserFollowersResponse>(r#"{"followers": []}"#),
        Err(Malformed::WrongShape)
    );
}

#[test]
fn numbers_are_read_within_their_range() {
    assert_eq!(document::<u64>("0"), Some(0));
    assert_eq!(document::<u64>("18446744073709551615"), Some(u64::MAX));
    assert_eq!(document::<u64>("18446744073709551616"), None);
    assert_eq!(document::<u64>("-1"), None);
    assert_eq!(document::<u64>("1.0"), None);
    assert_eq!(document::<u64>("1e2"), None);
    assert_eq!(document::<u64>("\"1\""), None);
    assert_eq!(document::<i64>("-9223372036854775808"), Some(i64::MIN));
    assert_eq!(document::<i64>("9223372036854775807"), Some(i64::MAX));
    assert_eq!(document::<i64>("9223372036854775808"), None);
    assert_eq!(document::<i64>("-9223372036854775809"), None);
    assert_eq!(document::<i64>("-0"), None);
    assert_eq!(document::<u16>("65535"), Some(65535));
    assert_eq!(document::<u16>("65536"), None);
    assert_eq!(document::<u8>("255"), Some(255));
    assert_eq!(document::<u8>("256"), None);
    assert_eq!(document::<u8>("-1"), None);
}

#[test]
fn plain_values_are_read() {
    assert_eq!(document::<bool>("true"), Some(true));
    assert_eq!(document::<bool>("false"), Some(false));
    assert_eq!(document::<bool>("1"), None);
    assert_eq!(document::<bool>("null"), None);
    assert_eq!(document::<String>("\"a\\u00e4\\n\""), Some("aä\n".to_string()));
    assert_eq!(document::<String>("a"), None);
    assert_eq!(document::<String>("7"), None);
    assert_eq!(document::<Option<String>>("null"), Some(None));
    assert_eq!(document::<Option<String>>("\"x\""), Some(Some("x".to_string())));
    assert_eq!(document::<Option<String>>("7"), None);
    assert_eq!(document::<Vec<u64>>("[]"), Some(vec![]));
    assert_eq!(document::<Vec<u64>>("[3, 1, 2]"), Some(vec![3, 1, 2]));
    assert_eq!(document::<Vec<u64>>("[3, -1, 2]"), None);
    assert_eq!(document::<Vec<u64>>("{}"), None);
    assert_eq!(document::<Vec<u64>>("null"), None);
    assert_eq!(
        document::<Vec<Option<bool>>>("[true, null, false]"),
        Some(vec![Some(true), None, Some(false)])
    );
    assert_eq!(document::<Vec<Vec<String>>>("[[\"a\"], []]"), Some(vec![vec!["a".to_string()], vec![]]));
}

#[test]
fn a_document_is_a_whole_text() {
    assert_eq!(document::<u64>(" 7 \n"), Some(7));
    assert_eq!(document::<u64>("7 8"), None);
    assert_eq!(document::<u64>(""), None);
    assert_eq!(document::<u64>("07"), None);
}

#[test]
fn a_token_validation_is_read() {
    let valid = document::<ValidateTokenResponse>(
        r#"{"code": 200, "message": "Token valid.", "valid": true, "user_name": "alice"}"#,
    )
    .unwrap();
    assert_eq!(
        valid,
        ValidateTokenResponse {
            rate_limit: None,
            code: 200,
            message: "Token valid.".to_string(),
            valid: true,
            user_name: Some("alice".to_string()),
        }
    );
    let invalid = document::<ValidateTokenResponse>(
        r#"{"code": 200, "message": "Token invalid.", "valid": false}"#,
    )
    .unwrap();
    assert!(!invalid.valid);
    assert_eq!(invalid.user_name, None);
    let null_user = document::<ValidateTokenResponse>(
        r#"{"code": 200, "message": "Token invalid.", "valid": false, "user_name": null}"#,
    )
    .unwrap();
    assert_eq!(null_user.user_name, None);
    assert_eq!(
        document::<ValidateTokenResponse>(
            r#"{"code": 200, "message": "Token valid.", "valid": "yes", "user_name": "alice"}"#
        ),
        None
    );
    assert_eq!(
        document::<ValidateTokenResponse>(r#"{"code": 200, "valid": true, "user_name": "alice"}"#),
        None
    );
    assert_eq!(
        document::<ValidateTokenResponse>(
            r#"{"code": 200, "message": "Token valid.", "valid": true, "user_name": 7}"#
        ),
        None
    );
}

#[test]
fn the_listens_of_a_user_are_read() {
    let text = r#"{
        "payload": {
            "count": 2,
            "latest_listen_ts": 1700000100,
            "oldest_listen_ts": 1600000000,
            "user_id": "alice",
            "listens": [
                {
                    "user_name": "alice",
                    "inserted_at": 1700000001,
                    "listened_at": 1700000000,
                    "recording_msid": "msid-1",
                    "track_metadata": {
                        "artist_name": "Rick Astley",
                        "track_name": "Never Gonna Give You Up",
                        "release_name": "Whenever You Need Somebody",
                        "additional_info": {"tracknumber": 1, "tags": ["pop"]},
                        "mbid_mapping": {
                            "artist_mbids": ["db92a151"],
                            "artists": [
                                {"artist_mbid": "db92a151", "artist_credit_name": "Rick Astley", "join_phrase": ""}
                            ],
                            "recording_mbid": "8f3471b5",
                            "recording_name": "Never Gonna Give You Up",
                            "caa_id": 123456789012,
                            "caa_release_mbid": null
                        }
                    }
                },
                {
                    "user_name": "alice",
                    "inserted_at": 1600000001,
                    "listened_at": 1600000000,
                    "recording_msid": "msid-2",
                    "track_metadata": {
                        "artist_name": "Unknown",
                        "track_name": "Untitled",
                        "additional_info": {}
                    }
                }
            ]
        },
        "something_new": true
    }"#;
    let read = document::<UserListensResponse>(text).unwrap();
    assert_eq!(read.rate_limit, None);
    assert_eq!(read.payload.count, 2);
    assert_eq!(read.payload.latest_listen_ts, 1700000100);
    assert_eq!(read.payload.oldest_listen_ts, 1600000000);
    assert_eq!(read.payload.user_id, "alice");
    assert_eq!(read.payload.listens.len(), 2);
    let first = &read.payload.listens[0];
    assert_eq!(first.inserted_at, 1700000001);
    assert_eq!(first.listened_at, 1700000000);
    assert_eq!(first.recording_msid, "msid-1");
    assert_eq!(first.track_metadata.artist_name, "Rick Astley");
    assert_eq!(first.track_metadata.track_name, "Never Gonna Give You Up");
    assert_eq!(first.track_metadata.release_name.as_deref(), Some("Whenever You Need Somebody"));
    assert_eq!(first.track_metadata.additional_info.len(), 2);
    assert_eq!(
        first.track_metadata.additional_info.get("tracknumber"),
        Some(&serde_json::Value::from(1u64))
    );
    assert_eq!(
        first.track_metadata.additional_info.get("tags"),
        Some(&serde_json::Value::from(vec!["pop"]))
    );
    let mapping = first.track_metadata.mbid_mapping.as_ref().unwrap();
    assert_eq!(mapping.artist_mbids, Some(vec!["db92a151".to_string()]));
    assert_eq!(mapping.artists.as_ref().unwrap()[0].artist_credit_name, "Rick Astley");
    assert_eq!(mapping.artists.as_ref().unwrap()[0].join_phrase, "");
    assert_eq!(mapping.recording_mbid, "8f3471b5");
    assert_eq!(mapping.recording_name.as_deref(), Some("Never Gonna Give You Up"));
    assert_eq!(mapping.caa_id, Some(123456789012));
    assert_eq!(mapping.caa_release_mbid, None);
    assert_eq!(mapping.release_mbid, None);
    let second = &read.payload.listens[1];
    assert_eq!(second.track_metadata.release_name, None);
    assert!(second.track_metadata.additional_info.is_empty());
    assert_eq!(second.track_metadata.mbid_mapping, None);
}

#[test]
fn one_listen_of_the_wrong_shape_spoils_the_document() {
    let good = r#"{"user_name": "a", "inserted_at": 1, "listened_at": 1, "recording_msid": "m",
        "track_metadata": {"artist_name": "a", "track_name": "t", "additional_info": {}}}"#;
    let without_info = r#"{"user_name": "a", "inserted_at": 1, "listened_at": 1, "recording_msid": "m",
        "track_metadata": {"artist_name": "a", "track_name": "t"}}"#;
    let info_is_a_list = r#"{"user_name": "a", "inserted_at": 1, "listened_at": 1, "recording_msid": "m",
        "track_metadata": {"artist_name": "a", "track_name": "t", "additional_info": []}}"#;
    let page = |listens: &str| {
        format!(
            r#"{{"payload": {{"count": 1, "latest_listen_ts": 1, "oldest_listen_ts": 1, "user_id": "a", "listens": [{}]}}}}"#,
            listens
        )
    };
    assert!(document::<UserListensResponse>(&page(good)).is_some());
    assert!(document::<UserListensResponse>(&page(&format!("{}, {}", good, good))).is_some());
    assert_eq!(document::<UserListensResponse>(&page(without_info)), None);
    assert_eq!(document::<UserListensResponse>(&page(info_is_a_list)), None);
    assert_eq!(document::<UserListensResponse>(&page(&format!("{}, {}", good, without_info))), None);
    assert_eq!(document::<UserListensResponse>(&page("null")), None);
}

#[test]
fn what_is_playing_now_is_read() {
    let read = document::<UserPlayingNowResponse>(
        r#"{"payload": {"count": 1, "user_id": "alice", "playing_now": true, "listens": [
            {"playing_now": true, "track_metadata": {"artist_name": "a", "track_name": "t",
             "release_name": null, "additional_info": {"duration_ms": 1000}}}]}}"#,
    )
    .unwrap();
    assert_eq!(read.payload.count, 1);
    assert!(read.payload.playing_now);
    assert!(read.payload.listens[0].playing_now);
    assert_eq!(read.payload.listens[0].track_metadata.release_name, None);
    assert_eq!(
        document::<UserPlayingNowResponse>(
            r#"{"payload": {"count": 256, "user_id": "alice", "playing_now": false, "listens": []}}"#
        ),
        None
    );
}

#[test]
fn recent_listens_of_several_users_are_read() {
    let read = document::<UsersRecentListensResponse>(
        r#"{"payload": {"count": 1, "user_list": "alice,bob", "listens": [
            {"user_name": "bob", "inserted_at": "Tue, 14 Nov 2023 22:13:20 GMT", "listened_at": 1700000000,
             "recording_msid": "m", "track_metadata": {"artist_name": "a", "track_name": "t",
             "additional_info": {}}}]}}"#,
    )
    .unwrap();
    assert_eq!(read.payload.user_list, "alice,bob");
    assert_eq!(read.payload.listens[0].user_name, "bob");
    assert_eq!(read.payload.listens[0].inserted_at, "Tue, 14 Nov 2023 22:13:20 GMT");
}

#[test]
fn daily_activity_is_read_day_by_day() {
    let read = document::<StatsUserDailyActivityResponse>(
        r#"{"payload": {"user_id": "alice", "from_ts": 1, "to_ts": 2, "last_updated": 3,
            "stats_range": "all_time", "daily_activity": {"days": {
                "Monday": [{"hour": 0, "listen_count": 26}, {"hour": 23, "listen_count": 1}],
                "Friday": [],
                "Wednesday": [{"hour": 12, "listen_count": 5}]
            }}}}"#,
    )
    .unwrap();
    let days = &read.payload.daily_activity.days;
    assert_eq!(days.len(), 3);
    let monday = days.iter().find(|(day, _)| day == "Monday").unwrap();
    assert_eq!(
        monday.1,
        vec![
            StatsUserDailyActivityHour { hour: 0, listen_count: 26 },
            StatsUserDailyActivityHour { hour: 23, listen_count: 1 }
        ]
    );
    let friday = days.iter().find(|(day, _)| day == "Friday").unwrap();
    assert!(friday.1.is_empty());
    let wednesday = days.iter().find(|(day, _)| day == "Wednesday").unwrap();
    assert_eq!(wednesday.1, vec![StatsUserDailyActivityHour { hour: 12, listen_count: 5 }]);
    let names: Vec<&str> = days.iter().map(|(day, _)| day.as_str()).collect();
    assert_eq!(names, vec!["Friday", "Monday", "Wednesday"]);
}

#[test]
fn the_days_come_in_ascending_order_of_their_names() {
    let read = document::<StatsUserDailyActivityResponse>(
        r#"{"payload": {"user_id": "alice", "from_ts": 1, "to_ts": 2, "last_updated": 3,
            "stats_range": "all_time", "daily_activity": {"days": {
                "z": [], "a": [], "é": [], "ab": [], "B": [], "": [], "a ": [], "🎵": [],
                "￿": [], "aB": []
            }}}}"#,
    )
    .unwrap();
    let names: Vec<&str> =
        read.payload.daily_activity.days.iter().map(|(day, _)| day.as_str()).collect();
    assert_eq!(names, vec!["", "B", "a", "a ", "aB", "ab", "z", "é", "\u{ffff}", "🎵"]);
    let mut by_characters = names.clone();
    by_characters.sort_by(|a, b| a.chars().cmp(b.chars()));
    assert_eq!(names, by_characters);
}

#[test]
fn daily_activity_of_the_wrong_shape_is_refused() {
    let page = |days: &str| {
        format!(
            r#"{{"payload": {{"user_id": "a", "from_ts": 1, "to_ts": 2, "last_updated": 3, "stats_range": "week", "daily_activity": {{"days": {}}}}}}}"#,
            days
        )
    };
    assert!(document::<StatsUserDailyActivityResponse>(&page("{}")).is_some());
    assert_eq!(document::<StatsUserDailyActivityResponse>(&page("[]")), None);
    assert_eq!(document::<StatsUserDailyActivityResponse>(&page("null")), None);
    assert_eq!(
        document::<StatsUserDailyActivityResponse>(&page(r#"{"Monday": [{"hour": 24}]}"#)),
        None
    );
    assert_eq!(
        document::<StatsUserDailyActivityResponse>(&page(
            r#"{"Monday": [], "Tuesday": [{"hour": 300, "listen_count": 1}]}"#
        )),
        None
    );
    assert_eq!(document::<StatsUserDailyActivityResponse>(&page(r#"{"Monday": 7}"#)), None);
}

#[test]
fn statistics_are_read() {
    let recordings = document::<StatsUserRecordingsResponse>(
        r#"{"payload": {"recordings": [{"artist_mbids": [], "artist_name": "a", "listen_count": 9,
            "recording_mbid": "r", "release_name": "rel", "track_name": "t"}],
            "count": 1, "total_recording_count": 50, "user_id": "alice", "from_ts": -1, "to_ts": 2,
            "last_updated": 3, "range": "week"}}"#,
    )
    .unwrap();
    assert_eq!(recordings.payload.total_recording_count, 50);
    assert_eq!(recordings.payload.from_ts, -1);
    assert_eq!(recordings.payload.recordings[0].artist_mbids, Some(vec![]));
    assert_eq!(recordings.payload.recordings[0].artist_msid, None);
    assert_eq!(recordings.payload.recordings[0].listen_count, 9);
    assert_eq!(recordings.payload.recordings[0].track_name.as_deref(), Some("t"));
    let releases = document::<StatsUserReleasesResponse>(
        r#"{"payload": {"releases": [{"artist_name": "a", "listen_count": 9, "release_name": "rel"}],
            "count": 1, "total_release_count": 5, "user_id": "alice", "from_ts": 1, "to_ts": 2,
            "last_updated": 3, "range": "week"}}"#,
    )
    .unwrap();
    assert_eq!(releases.payload.releases[0].release_name, "rel");
    assert_eq!(releases.payload.releases[0].artist_mbids, None);
    let activity = document::<StatsUserListeningActivityResponse>(
        r#"{"payload": {"user_id": "alice", "listening_activity": [
            {"listen_count": 4, "from_ts": 1, "to_ts": 2, "time_range": "Monday 1 January 2024"}],
            "from_ts": 1, "to_ts": 2, "last_updated": 3}}"#,
    )
    .unwrap();
    assert_eq!(activity.payload.listening_activity[0].time_range, "Monday 1 January 2024");
    let sitewide = document::<StatsSitewideArtistsResponse>(
        r#"{"payload": {"artists": [{"artist_name": "a", "listen_count": 1}], "offset": 0,
            "count": 1, "range": "year", "last_updated": 3, "from_ts": 1, "to_ts": 2}}"#,
    )
    .unwrap();
    assert_eq!(sitewide.payload.artists[0].artist_name, "a");
    let listeners = document::<StatsReleaseGroupListenersResponse>(
        r#"{"payload": {"artist_mbids": ["m"], "artist_name": "a", "caa_id": null,
            "caa_release_mbid": "c", "from_ts": 1, "last_updated": 3,
            "listeners": [{"listen_count": 7, "username_name": "alice"}],
            "release_group_mbid": "g", "release_group_name": "n", "stats_range": "all_time",
            "to_ts": 2, "total_listen_count": 70}}"#,
    )
    .unwrap();
    assert_eq!(listeners.payload.caa_id, None);
    assert_eq!(listeners.payload.caa_release_mbid.as_deref(), Some("c"));
    assert_eq!(listeners.payload.listeners[0].username_name, "alice");
    assert_eq!(listeners.payload.total_listen_count, 70);
    let range = document::<StatsSitewideArtistsTimeRange>(
        r#"{"time_range": "2023", "artists": [], "from_ts": 1, "to_ts": 2}"#,
    )
    .unwrap();
    assert_eq!(range.time_range, "2023");
    assert!(range.artists.is_empty());
}

const PLAYLIST: &str = r#"{
    "playlist": {
        "extension": {
            "https://musicbrainz.org/doc/jspf#playlist": {
                "created_for": "alice",
                "creator": "troi-bot",
                "copied_from": null,
                "public": true,
                "last_modified_at": "2024-01-01T00:00:00+00:00",
                "additional_metadata": {"algorithm_metadata": {"source_patch": "weekly-jams"}}
            }
        },
        "creator": "troi-bot",
        "date": "2024-01-01T00:00:00+00:00",
        "title": "Weekly Jams",
        "identifier": "https://listenbrainz.org/playlist/1",
        "track": [
            {
                "title": "Never Gonna Give You Up",
                "identifier": "https://musicbrainz.org/recording/8f3471b5",
                "creator": "Rick Astley",
                "album": "Whenever You Need Somebody",
                "extension": {
                    "https://musicbrainz.org/doc/jspf#track": {
                        "added_by": "troi-bot",
                        "artist_mbids": ["db92a151"],
                        "added_at": "2024-01-01T00:00:00+00:00"
                    }
                }
            }
        ]
    }
}"#;

#[test]
fn a_playlist_is_read() {
    let read = document::<Playlist>(PLAYLIST).unwrap().playlist;
    assert_eq!(read.title, "Weekly Jams");
    assert_eq!(read.creator, "troi-bot");
    assert_eq!(read.identifier, "https://listenbrainz.org/playlist/1");
    let extension = &read.extension.musicbrainz;
    assert_eq!(extension.created_for, "alice");
    assert_eq!(extension.collaborators, Vec::<String>::new());
    assert_eq!(extension.copied_from, None);
    assert!(!extension.copied_from_deleted);
    assert!(extension.public);
    assert_eq!(
        extension.additional_metadata,
        AdditionalMetadata {
            algorithm_metadata: Some(AlgorithmMetadata { source_patch: Some("weekly-jams".to_string()) })
        }
    );
    assert_eq!(read.track.len(), 1);
    assert_eq!(read.track[0].album, "Whenever You Need Somebody");
    assert_eq!(read.track[0].extension.musicbrainz.added_by, "troi-bot");
    assert_eq!(read.track[0].extension.musicbrainz.artist_mbids, vec!["db92a151".to_string()]);
    assert_eq!(read.track[0].extension.musicbrainz.release_identifier, None);
}

#[test]
fn a_member_with_a_default_may_be_missing_but_not_null() {
    let with_null = PLAYLIST.replace(r#""public": true,"#, r#""public": true, "collaborators": null,"#);
    assert_eq!(document::<Playlist>(&with_null), None);
    let with_value =
        PLAYLIST.replace(r#""public": true,"#, r#""public": true, "collaborators": ["bob"], "copied_from_deleted": true,"#);
    let read = document::<Playlist>(&with_value).unwrap().playlist;
    assert_eq!(read.extension.musicbrainz.collaborators, vec!["bob".to_string()]);
    assert!(read.extension.musicbrainz.copied_from_deleted);
}

#[test]
fn playlists_come_in_responses() {
    let one = document::<GetPlaylistResponse>(PLAYLIST).unwrap();
    assert_eq!(one.rate_limit, None);
    assert_eq!(one.playlist.title, "Weekly Jams");
    let page = format!(r#"{{"count": 1, "offset": 0, "playlist_count": 7, "playlists": [{}]}}"#, PLAYLIST);
    let many = document::<UserPlaylistsResponse>(&page).unwrap();
    assert_eq!(many.playlist_count, 7);
    assert_eq!(many.playlists.len(), 1);
    assert_eq!(many.playlists[0].playlist.track[0].creator, "Rick Astley");
}

#[test]
fn a_record_of_optional_members_must_still_be_an_object() {
    assert_eq!(
        document::<AdditionalMetadata>("{}"),
        Some(AdditionalMetadata { algorithm_metadata: None })
    );
    assert_eq!(
        document::<AlgorithmMetadata>(r#"{"source_patch": null}"#),
        Some(AlgorithmMetadata { source_patch: None })
    );
    for other in ["null", "[]", "7", "\"text\"", "true"] {
        assert_eq!(document::<AdditionalMetadata>(other), None);
        assert_eq!(document::<AlgorithmMetadata>(other), None);
    }
}

#[test]
fn followers_are_read() {
    let read =
        document::<UserFollowersResponse>(r#"{"followers": ["bob", "carol"], "user": "alice"}"#).unwrap();
    assert_eq!(read.followers, vec!["bob".to_string(), "carol".to_string()]);
    assert_eq!(read.user, "alice");
}

#[test]
fn a_value_is_read_from_a_document_that_was_parsed_before() {
    let value: serde_json::Value = serde_json::from_str(r#"{"followers": [], "user": "alice"}"#).unwrap();
    assert_eq!(
        UserFollowersResponse::from_json(&value),
        Some(UserFollowersResponse { rate_limit: None, followers: vec![], user: "alice".to_string() })
    );
    assert_eq!(UserFollowersResponse::from_json(&serde_json::Value::Null), None);
}
