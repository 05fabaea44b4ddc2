use listenbrainz::raw::endpoint::Endpoint;

#[test]
fn fixed_paths() {
    assert_eq!(Endpoint::SubmitListens.to_string(), "submit-listens");
    assert_eq!(Endpoint::ValidateToken.to_string(), "validate-token");
    assert_eq!(Endpoint::DeleteListen.to_string(), "delete-listen");
    assert_eq!(Endpoint::LatestImport.to_string(), "latest-import");
    assert_eq!(Endpoint::StatsSitewideArtists.to_string(), "stats/sitewide/artists");
    assert_eq!(Endpoint::StatusGetDumpInfo.to_string(), "status/get-dump-info");
}

#[test]
fn paths_with_a_user_name() {
    assert_eq!(Endpoint::UserListenCount("alice").to_string(), "user/alice/listen-count");
    assert_eq!(Endpoint::UserPlayingNow("alice").to_string(), "user/alice/playing-now");
    assert_eq!(Endpoint::UserListens("alice").to_string(), "user/alice/listens");
    assert_eq!(
        Endpoint::StatsUserListeningActivity("alice").to_string(),
        "stats/user/alice/listening-activity"
    );
    assert_eq!(
        Endpoint::StatsUserDailyActivity("alice").to_string(),
        "stats/user/alice/daily-activity"
    );
    assert_eq!(Endpoint::StatsUserRecordings("alice").to_string(), "stats/user/alice/recordings");
    assert_eq!(Endpoint::StatsUserArtistMap("alice").to_string(), "stats/user/alice/artist-map");
    assert_eq!(Endpoint::StatsUserReleases("alice").to_string(), "stats/user/alice/releases");
    assert_eq!(Endpoint::StatsUserArtists("alice").to_string(), "stats/user/alice/artists");
}

#[test]
fn path_with_a_release_group() {
    assert_eq!(
        Endpoint::StatsReleaseGroupListeners("1ca7a15d-47a9-4a7c-8e5d-4b8e6a1c3f5e").to_string(),
        "stats/release-group/1ca7a15d-47a9-4a7c-8e5d-4b8e6a1c3f5e/listeners"
    );
}

#[test]
fn a_name_is_put_into_the_path_as_it_is() {
    assert_eq!(Endpoint::UserListens("a/b c%,d").to_string(), "user/a/b c%,d/listens");
    assert_eq!(Endpoint::UserListens("").to_string(), "user//listens");
    assert_eq!(Endpoint::UserListens("jürgen").to_string(), "user/jürgen/listens");
}

#[test]
fn commas_inside_the_names_of_a_list_are_escaped() {
    assert_eq!(
        Endpoint::UsersRecentListens(&["a,b", "c"]).to_string(),
        "users/a%2Cb,c/recent-listens"
    );
}

#[test]
fn lists_of_users() {
    assert_eq!(Endpoint::UsersRecentListens(&[]).to_string(), "users//recent-listens");
    assert_eq!(Endpoint::UsersRecentListens(&["alice"]).to_string(), "users/alice/recent-listens");
    assert_eq!(
        Endpoint::UsersRecentListens(&["alice", "bob", "carol"]).to_string(),
        "users/alice,bob,carol/recent-listens"
    );
    assert_eq!(Endpoint::UsersRecentListens(&["", ""]).to_string(), "users/,/recent-listens");
    assert_eq!(Endpoint::UsersRecentListens(&[",", ",,"]).to_string(), "users/%2C,%2C%2C/recent-listens");
    assert_eq!(Endpoint::UsersRecentListens(&["%2", "C"]).to_string(), "users/%2,C/recent-listens");
}

/// Reads the users back out of a path: what stands between `users/` and
/// `/recent-listens`, parted at the commas, with `%2C` put back into a comma.
fn users_of(path: &str) -> Vec<String> {
    let list = &path["users/".len()..path.len() - "/recent-listens".len()];
    list.split(',').map(|part| part.replace("%2C", ",")).collect()
}

#[test]
fn a_list_of_users_can_be_read_back_from_the_path() {
    let lists: Vec<Vec<&str>> = vec![
        vec!["a,b", "c"],
        vec!["alice"],
        vec![""],
        vec![",", "", ",,"],
        vec!["%2", "C"],
        vec!["%", "2C", "x%2", "%C2"],
        vec!["jürgen,müller", "x"],
    ];
    for users in lists {
        let path = Endpoint::UsersRecentListens(&users).to_string();
        assert_eq!(users_of(&path), users);
    }
}

#[test]
fn a_name_that_holds_the_escape_sequence_is_not_read_back() {
    let path = Endpoint::UsersRecentListens(&["a%2Cb"]).to_string();
    assert_eq!(path, "users/a%2Cb/recent-listens");
    assert_eq!(users_of(&path), vec!["a,b".to_string()]);
}
