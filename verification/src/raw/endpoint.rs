//! The paths of the API's endpoints.

use vstd::prelude::*;
use crate::text::push_char;

verus! {

/// An endpoint of the API together with the names that its path holds.
#[derive(Debug, Clone, Copy, PartialEq, Eq)]
pub enum Endpoint<'a> {
    SubmitListens,
    ValidateToken,
    DeleteListen,
    UsersRecentListens(&'a [&'a str]),
    UserListenCount(&'a str),
    UserPlayingNow(&'a str),
    UserListens(&'a str),
    LatestImport,
    StatsSitewideArtists,
    StatsUserListeningActivity(&'a str),
    StatsUserDailyActivity(&'a str),
    StatsUserRecordings(&'a str),
    StatsUserArtistMap(&'a str),
    StatsUserReleases(&'a str),
    StatsUserArtists(&'a str),
    StatsReleaseGroupListeners(&'a str),
    StatusGetDumpInfo,
}

/// How one character of a name is written in a list of names: a comma as
/// `%2C`, any other character as itself.
pub open spec fn escape_char(c: char) -> Seq<char> {
    if c == ',' {
        seq!['%', '2', 'C']
    } else {
        seq![c]
    }
}

/// A name with each of its commas written as `%2C`.
pub open spec fn escape_commas(s: Seq<char>) -> Seq<char>
    decreases s.len(),
{
    if s.len() == 0 {
        s
    } else {
        escape_commas(s.drop_last()) + escape_char(s.last())
    }
}

/// The parts in their order with a comma between each two of them.
pub open spec fn joined(parts: Seq<Seq<char>>) -> Seq<char>
    decreases parts.len(),
{
    if parts.len() == 0 {
        Seq::empty()
    } else if parts.len() == 1 {
        parts[0]
    } else {
        joined(parts.drop_last()) + seq![','] + parts.last()
    }
}

/// The names with their commas escaped, one for one.
pub open spec fn escaped(names: Seq<Seq<char>>) -> Seq<Seq<char>> {
    Seq::new(names.len(), |i: int| escape_commas(names[i]))
}

/// The path of the endpoint that lists the recent listens of several users.
/// Commas inside a name are escaped, so that a comma in the path always
/// parts two names.
pub open spec fn recent_listens_path(users: Seq<Seq<char>>) -> Seq<char> {
    "users/"@ + joined(escaped(users)) + "/recent-listens"@
}

/// The texts of a sequence of strings, one for one.
pub open spec fn texts(names: Seq<&str>) -> Seq<Seq<char>> {
    Seq::new(names.len(), |i: int| names[i]@)
}

impl<'a> Endpoint<'a> {
    /// The path of the endpoint, relative to the API root.
    pub open spec fn path(self) -> Seq<char> {
        match self {
            Endpoint::SubmitListens => "submit-listens"@,
            Endpoint::ValidateToken => "validate-token"@,
            Endpoint::DeleteListen => "delete-listen"@,
            Endpoint::UsersRecentListens(users) => recent_listens_path(texts(users@)),
            Endpoint::UserListenCount(user) => "user/"@ + user@ + "/listen-count"@,
            Endpoint::UserPlayingNow(user) => "user/"@ + user@ + "/playing-now"@,
            Endpoint::UserListens(user) => "user/"@ + user@ + "/listens"@,
            Endpoint::LatestImport => "latest-import"@,
            Endpoint::StatsSitewideArtists => "stats/sitewide/artists"@,
            Endpoint::StatsUserListeningActivity(user) => "stats/user/"@ + user@
                + "/listening-activity"@,
            Endpoint::StatsUserDailyActivity(user) => "stats/user/"@ + user@ + "/daily-activity"@,
            Endpoint::StatsUserRecordings(user) => "stats/user/"@ + user@ + "/recordings"@,
            Endpoint::StatsUserArtistMap(user) => "stats/user/"@ + user@ + "/artist-map"@,
            Endpoint::StatsUserReleases(user) => "stats/user/"@ + user@ + "/releases"@,
            Endpoint::StatsUserArtists(user) => "stats/user/"@ + user@ + "/artists"@,
            Endpoint::StatsReleaseGroupListeners(release_group_mbid) => "stats/release-group/"@
                + release_group_mbid@ + "/listeners"@,
            Endpoint::StatusGetDumpInfo => "status/get-dump-info"@,
        }
    }

    /// The path of the endpoint, relative to the API root. A name is put into
    /// the path as it is; only the commas of the names in a list of users are
    /// escaped.
    pub fn to_string(&self) -> (r: String)
        ensures
            r@ == self.path(),
    {
        match self {
            Endpoint::SubmitListens => "submit-listens".to_owned(),
            Endpoint::ValidateToken => "validate-token".to_owned(),
            Endpoint::DeleteListen => "delete-listen".to_owned(),
            Endpoint::UsersRecentListens(users) => {
                let mut out = "users/".to_owned();
                push_user_list(&mut out, users);
                out.append("/recent-listens");
                out
            },
            Endpoint::UserListenCount(user) => around("user/", user, "/listen-count"),
            Endpoint::UserPlayingNow(user) => around("user/", user, "/playing-now"),
            Endpoint::UserListens(user) => around("user/", user, "/listens"),
            Endpoint::LatestImport => "latest-import".to_owned(),
            Endpoint::StatsSitewideArtists => "stats/sitewide/artists".to_owned(),
            Endpoint::StatsUserListeningActivity(user) => around(
                "stats/user/",
                user,
                "/listening-activity",
            ),
            Endpoint::StatsUserDailyActivity(user) => around(
                "stats/user/",
                user,
                "/daily-activity",
            ),
            Endpoint::StatsUserRecordings(user) => around("stats/user/", user, "/recordings"),
            Endpoint::StatsUserArtistMap(user) => around("stats/user/", user, "/artist-map"),
            Endpoint::StatsUserReleases(user) => around("stats/user/", user, "/releases"),
            Endpoint::StatsUserArtists(user) => around("stats/user/", user, "/artists"),
            Endpoint::StatsReleaseGroupListeners(release_group_mbid) => around(
                "stats/release-group/",
                release_group_mbid,
                "/listeners",
            ),
            Endpoint::StatusGetDumpInfo => "status/get-dump-info".to_owned(),
        }
    }
}

/// `name` between `before` and `after`.
fn around(before: &str, name: &str, after: &str) -> (r: String)
    ensures
        r@ == before@ + name@ + after@,
{
    let mut out = before.to_owned();
    out.append(name);
    out.append(after);
    out
}

/// Appends `name` with its commas escaped.
fn push_escaped(out: &mut String, name: &str)
    ensures
        final(out)@ == old(out)@ + escape_commas(name@),
{
    let ghost start = out@;
    for c in it: name.chars()
        invariant
            it.seq() == name@,
            out@ == start + escape_commas(name@.take(it.index() as int)),
    {
        proof {
            let i = it.index() as int;
            assert(name@.take(i + 1).drop_last() == name@.take(i));
            reveal_strlit("%2C");
            assert("%2C"@ == seq!['%', '2', 'C']);
        }
        if c == ',' {
            out.append("%2C");
        } else {
            push_char(out, c);
        }
    }
    assert(name@.take(name@.len() as int) == name@);
}

/// Appends the names with their commas escaped and a comma between each two
/// of them.
fn push_user_list(out: &mut String, users: &[&str])
    ensures
        final(out)@ == old(out)@ + joined(escaped(texts(users@))),
{
    let ghost start = out@;
    let ghost parts = escaped(texts(users@));
    for i in 0..users.len()
        invariant
            parts == escaped(texts(users@)),
            out@ == start + joined(parts.take(i as int)),
    {
        proof {
            assert(parts.take(i + 1).drop_last() == parts.take(i as int));
            assert(parts.take(i + 1).last() == escape_commas(users@[i as int]@));
            reveal_strlit(",");
            assert(","@ == seq![',']);
        }
        if i > 0 {
            out.append(",");
        }
        push_escaped(out, users[i]);
        proof {
            if i == 0 {
                assert(parts.take(1)[0] == escape_commas(users@[0]@));
                assert(joined(parts.take(0)) == Seq::<char>::empty());
            }
        }
    }
    assert(parts.take(users@.len() as int) == parts);
}

/// The parts that a list of names falls into at its commas.
pub open spec fn split_commas(list: Seq<char>) -> Seq<Seq<char>>
    decreases list.len(),
{
    if list.len() == 0 {
        seq![Seq::empty()]
    } else {
        let parts = split_commas(list.drop_last());
        if list.last() == ',' {
            parts.push(Seq::empty())
        } else {
            parts.update(parts.len() - 1, parts.last().push(list.last()))
        }
    }
}

/// Whether a text ends in the escape sequence `%2C`.
pub open spec fn ends_with_escape(s: Seq<char>) -> bool {
    s.len() >= 3 && s[s.len() - 3] == '%' && s[s.len() - 2] == '2' && s[s.len() - 1] == 'C'
}

/// A part of a list of names with each `%2C` put back into a comma.
pub open spec fn unescape_commas(s: Seq<char>) -> Seq<char>
    decreases s.len(),
{
    if ends_with_escape(s) {
        unescape_commas(s.take(s.len() - 3)).push(',')
    } else if s.len() == 0 {
        s
    } else {
        unescape_commas(s.drop_last()).push(s.last())
    }
}

/// The users that the path of the recent-listens endpoint names: what stands
/// between `users/` and `/recent-listens`, parted at the commas, each part
/// with its escape sequences put back into commas.
pub open spec fn listed_users(path: Seq<char>) -> Seq<Seq<char>> {
    let parts = split_commas(path.subrange(6, path.len() - 15));
    Seq::new(parts.len(), |i: int| unescape_commas(parts[i]))
}

/// Whether the escape sequence `%2C` stands at position `i` of a text.
pub open spec fn escape_at(s: Seq<char>, i: int) -> bool {
    0 <= i && i + 2 < s.len() && s[i] == '%' && s[i + 1] == '2' && s[i + 2] == 'C'
}

/// Whether a name holds the escape sequence `%2C` itself.
pub open spec fn holds_escape(s: Seq<char>) -> bool {
    exists|i: int| escape_at(s, i)
}

/// Whether a text is free of commas.
pub open spec fn comma_free(s: Seq<char>) -> bool {
    forall|i: int| 0 <= i < s.len() ==> s[i] != ','
}

proof fn lemma_escape_last(s: Seq<char>)
    requires
        s.len() > 0,
    ensures
        escape_commas(s).len() > 0,
        escape_commas(s).last() == (if s.last() == ',' {
            'C'
        } else {
            s.last()
        }),
        s.last() != ',' ==> escape_commas(s).drop_last() == escape_commas(s.drop_last()),
{
    let init = escape_commas(s.drop_last());
    if s.last() != ',' {
        assert((init + seq![s.last()]).drop_last() == init);
    }
}

proof fn lemma_escape_comma_free(s: Seq<char>)
    ensures
        comma_free(escape_commas(s)),
    decreases s.len(),
{
    if s.len() > 0 {
        lemma_escape_comma_free(s.drop_last());
    }
}

proof fn lemma_unescape_escape(s: Seq<char>)
    requires
        !holds_escape(s),
    ensures
        unescape_commas(escape_commas(s)) == s,
    decreases s.len(),
{
    if s.len() > 0 {
        let init = s.drop_last();
        let e = escape_commas(s);
        assert(!holds_escape(init)) by {
            if holds_escape(init) {
                let i = choose|i: int| escape_at(init, i);
                assert(escape_at(s, i));
            }
        }
        lemma_unescape_escape(init);
        if s.last() == ',' {
            assert(ends_with_escape(e));
            assert(e.take(e.len() - 3) == escape_commas(init));
            assert(init.push(',') == s);
        } else {
            assert(e.drop_last() == escape_commas(init));
            assert(e.last() == s.last());
            assert(!ends_with_escape(e)) by {
                if ends_with_escape(e) {
                    lemma_escape_last(init);
                    lemma_escape_last(init.drop_last());
                    assert(escape_at(s, s.len() - 3));
                }
            }
            assert(init.push(s.last()) == s);
        }
    }
}

proof fn lemma_split_nonempty(list: Seq<char>)
    ensures
        split_commas(list).len() > 0,
    decreases list.len(),
{
    if list.len() > 0 {
        lemma_split_nonempty(list.drop_last());
    }
}

proof fn lemma_split_append(list: Seq<char>, tail: Seq<char>)
    requires
        comma_free(tail),
    ensures
        split_commas(list).len() > 0,
        split_commas(list + tail) == split_commas(list).update(
            split_commas(list).len() - 1,
            split_commas(list).last() + tail,
        ),
    decreases tail.len(),
{
    lemma_split_nonempty(list);
    let parts = split_commas(list);
    if tail.len() == 0 {
        assert(list + tail == list);
        assert(parts.last() + tail == parts.last());
        assert(parts.update(parts.len() - 1, parts.last()) == parts);
    } else {
        let shorter = tail.drop_last();
        lemma_split_append(list, shorter);
        assert((list + tail).drop_last() == list + shorter);
        assert((list + tail).last() == tail.last());
        assert(parts.last() + tail == (parts.last() + shorter).push(tail.last()));
        let before = parts.update(parts.len() - 1, parts.last() + shorter);
        assert(before.update(before.len() - 1, before.last().push(tail.last())) == parts.update(
            parts.len() - 1,
            parts.last() + tail,
        ));
    }
}

proof fn lemma_split_joined(parts: Seq<Seq<char>>)
    requires
        parts.len() > 0,
        forall|k: int| 0 <= k < parts.len() ==> comma_free(#[trigger] parts[k]),
    ensures
        split_commas(joined(parts)) == parts,
    decreases parts.len(),
{
    let empty = Seq::<char>::empty();
    if parts.len() == 1 {
        lemma_split_append(empty, parts[0]);
        assert(empty + parts[0] == parts[0]);
        assert(split_commas(empty) == seq![empty]);
        assert(seq![empty].update(0, empty + parts[0]) == parts);
    } else {
        let init = parts.drop_last();
        lemma_split_joined(init);
        let head = joined(init) + seq![','];
        assert(head.drop_last() == joined(init));
        assert(split_commas(head) == init.push(empty));
        lemma_split_append(head, parts.last());
        assert(init.push(empty).update(init.len() as int, empty + parts.last()) == parts);
    }
}

/// Reading the path of the recent-listens endpoint back gives the users that
/// it was made for, in their order. This holds of every list that names at
/// least one user and in which no name holds `%2C` itself.
pub proof fn lemma_listed_users_of_path(users: Seq<Seq<char>>)
    requires
        users.len() > 0,
        forall|k: int| 0 <= k < users.len() ==> !holds_escape(#[trigger] users[k]),
    ensures
        listed_users(recent_listens_path(users)) == users,
{
    let list = joined(escaped(users));
    let path = recent_listens_path(users);
    reveal_strlit("users/");
    reveal_strlit("/recent-listens");
    assert(path.subrange(6, path.len() - 15) == list);
    assert forall|k: int| 0 <= k < users.len() implies comma_free(#[trigger] escaped(users)[k]) by {
        lemma_escape_comma_free(users[k]);
    }
    lemma_split_joined(escaped(users));
    assert forall|k: int| 0 <= k < users.len() implies unescape_commas(escaped(users)[k])
        == users[k] by {
        lemma_unescape_escape(users[k]);
    }
    assert(listed_users(path) =~= users);
}

} // verus!
