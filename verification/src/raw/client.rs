//! The operations of the API, one function for each.
//!
//! An operation is carried out in two steps with the network in between. The
//! function of the operation composes the request and hands it out in a
//! [`Call`]; once the caller has sent it, `finish` reads the response as the
//! type that the operation answers with.

use std::marker::PhantomData;
use vstd::prelude::*;
use crate::codec::ToJson;
use crate::error::{Error, ErrorModel};
use crate::http::{Method, Request, RequestModel, Response, ResponseModel};
use crate::json::{json_written, write_value, Json};
use crate::raw::endpoint::Endpoint;
use crate::raw::request::{DeleteListen, SubmitListens, UpdateLatestImport};
use crate::raw::response::listens::{
    DeleteListenResponse, GetLatestImportResponse, SubmitListensResponse,
    UpdateLatestImportResponse, UserListenCountResponse, UserListensResponse,
    UserPlayingNowResponse, UsersRecentListensResponse, ValidateTokenResponse,
};
use crate::raw::response::misc::StatusGetDumpInfoResponse;
use crate::raw::response::statistics::{
    StatsReleaseGroupListenersResponse, StatsSitewideArtistsResponse,
    StatsUserArtistMapResponse, StatsUserArtistsResponse, StatsUserDailyActivityResponse,
    StatsUserListeningActivityResponse, StatsUserRecordingsResponse, StatsUserReleasesResponse,
};
use crate::raw::response::{
    from_optional_response, from_response, optional_result_of, outcome_of, result_model,
    result_of, ResponseType,
};
use crate::text::{bool_text, bool_text_spec, decimal, i64_text, u64_text};

verus! {

/// The root of the API of ListenBrainz.org.
pub const API_ROOT_URL: &'static str = "https://api.listenbrainz.org/1/";

/// An operation that has been prepared and answers with an `R`.
#[derive(Debug)]
pub struct Call<R> {
    /// The request to send.
    pub request: Request,
    /// Stands for the type of the answer.
    pub expected: PhantomData<R>,
}

/// An operation that has been prepared and answers with an `R`, or with
/// status 204 when there is no data to answer with.
#[derive(Debug)]
pub struct StatsCall<R> {
    /// The request to send.
    pub request: Request,
    /// Stands for the type of the answer.
    pub expected: PhantomData<R>,
}

impl<R: ResponseType> Call<R> {
    /// Reads the response to the request of this call.
    pub fn finish(&self, response: &Response) -> (r: Result<R, Error>)
        ensures
            result_model(r) == result_of(outcome_of::<R>(response.deep_view())),
    {
        from_response::<R>(response)
    }
}

impl<R: ResponseType> StatsCall<R> {
    /// What a response to a call of this kind means to the caller. Status
    /// 204 means that there is no data: a success without a document.
    pub open spec fn answer(response: ResponseModel) -> Result<Option<R::V>, ErrorModel> {
        optional_result_of(outcome_of::<R>(response))
    }

    /// Reads the response to the request of this call. Status 204 is the
    /// answer `None`: there is no data, which is no error.
    pub fn finish(&self, response: &Response) -> (r: Result<Option<R>, Error>)
        ensures
            result_model(r) == Self::answer(response.deep_view()),
            response.status == 204 ==> r matches Ok(None),
    {
        from_optional_response::<R>(response)
    }
}

/// The query parameter `name`, if it has a value: a parameter without a
/// value is not part of the request at all.
pub open spec fn param(name: Seq<char>, value: Option<Seq<char>>) -> Seq<(Seq<char>, Seq<char>)> {
    match value {
        Some(text) => seq![(name, text)],
        None => Seq::empty(),
    }
}

/// The query parameter `name` with an unsigned number as its value.
pub open spec fn u64_param(name: Seq<char>, value: Option<u64>) -> Seq<(Seq<char>, Seq<char>)> {
    match value {
        Some(n) => seq![(name, decimal(n as int))],
        None => Seq::empty(),
    }
}

/// The query parameter `name` with a signed number as its value.
pub open spec fn i64_param(name: Seq<char>, value: Option<i64>) -> Seq<(Seq<char>, Seq<char>)> {
    match value {
        Some(n) => seq![(name, decimal(n as int))],
        None => Seq::empty(),
    }
}

/// The query parameter `name` with `true` or `false` as its value.
pub open spec fn bool_param(name: Seq<char>, value: Option<bool>) -> Seq<(Seq<char>, Seq<char>)> {
    match value {
        Some(b) => seq![(name, bool_text_spec(b))],
        None => Seq::empty(),
    }
}

/// The text of a string that may be absent.
pub open spec fn text_of(value: Option<&str>) -> Option<Seq<char>> {
    match value {
        Some(s) => Some(s@),
        None => None,
    }
}

/// The query parameters that most statistics endpoints share.
pub open spec fn stats_query(count: Option<u64>, offset: Option<u64>, range: Option<&str>) -> Seq<
    (Seq<char>, Seq<char>),
> {
    u64_param("count"@, count) + u64_param("offset"@, offset) + param("range"@, text_of(range))
}

/// A `GET` request: no token and no body.
pub open spec fn get_request(
    root: Seq<char>,
    path: Seq<char>,
    query: Seq<(Seq<char>, Seq<char>)>,
) -> RequestModel {
    RequestModel { method: Method::Get, url: root + path, query, token: None, body: None }
}

/// A `POST` request: made in the name of the user that the token belongs to,
/// with a JSON text as its body.
pub open spec fn post_request(root: Seq<char>, path: Seq<char>, token: Seq<char>, body: Seq<char>)
    -> RequestModel {
    RequestModel {
        method: Method::Post,
        url: root + path,
        query: Seq::empty(),
        token: Some(token),
        body: Some(body),
    }
}

/// What preparing a `POST` of the document `data` ends in: the request with
/// the document written out as its body, or an error where the document
/// cannot be written.
pub open spec fn posted(root: Seq<char>, path: Seq<char>, token: Seq<char>, data: Json) -> Result<
    RequestModel,
    ErrorModel,
> {
    match json_written(data) {
        Some(body) => Ok(post_request(root, path, token, body)),
        None => Err(ErrorModel::RequestJson),
    }
}

/// The mathematical value of a prepared `POST`.
pub open spec fn prepared<R>(r: Result<Call<R>, Error>) -> Result<RequestModel, ErrorModel> {
    match r {
        Ok(call) => Ok(call.request.deep_view()),
        Err(e) => Err(e.deep_view()),
    }
}

/// The query parameters that the operations of the API are refined with
/// have names of their own, so none of them is sent twice.
pub proof fn lemma_query_names_distinct()
    ensures
        "count"@ != "offset"@,
        "count"@ != "range"@,
        "offset"@ != "range"@,
        "min_ts"@ != "max_ts"@,
        "min_ts"@ != "count"@,
        "min_ts"@ != "time_range"@,
        "max_ts"@ != "count"@,
        "max_ts"@ != "time_range"@,
        "count"@ != "time_range"@,
        "range"@ != "force_recalculate"@,
{
    reveal_strlit("count");
    reveal_strlit("offset");
    reveal_strlit("range");
    reveal_strlit("min_ts");
    reveal_strlit("max_ts");
    reveal_strlit("time_range");
    reveal_strlit("force_recalculate");
    assert("count"@.len() == 5 && "offset"@.len() == 6 && "range"@.len() == 5);
    assert("time_range"@.len() == 10 && "force_recalculate"@.len() == 17);
    assert("min_ts"@.len() == 6 && "max_ts"@.len() == 6);
    assert("count"@[0] != "range"@[0]);
    assert("min_ts"@[1] != "max_ts"@[1]);
}

/// Adds a query parameter.
fn push_param(query: &mut Vec<(String, String)>, name: &str, value: String)
    ensures
        final(query).deep_view() == old(query).deep_view() + seq![(name@, value@)],
{
    query.push((name.to_owned(), value));
    assert(query.deep_view() =~= old(query).deep_view() + seq![(name@, value@)]);
}

/// Adds a query parameter if it has a value.
fn push_text_param(query: &mut Vec<(String, String)>, name: &str, value: Option<&str>)
    ensures
        final(query).deep_view() == old(query).deep_view() + param(name@, text_of(value)),
{
    match value {
        Some(text) => push_param(query, name, text.to_owned()),
        None => {
            assert(query.deep_view() + Seq::empty() =~= query.deep_view());
        },
    }
}

/// Adds a query parameter if it has a value.
fn push_u64_param(query: &mut Vec<(String, String)>, name: &str, value: Option<u64>)
    ensures
        final(query).deep_view() == old(query).deep_view() + u64_param(name@, value),
{
    match value {
        Some(n) => push_param(query, name, u64_text(n)),
        None => {
            assert(query.deep_view() + Seq::empty() =~= query.deep_view());
        },
    }
}

/// Adds a query parameter if it has a value.
fn push_i64_param(query: &mut Vec<(String, String)>, name: &str, value: Option<i64>)
    ensures
        final(query).deep_view() == old(query).deep_view() + i64_param(name@, value),
{
    match value {
        Some(n) => push_param(query, name, i64_text(n)),
        None => {
            assert(query.deep_view() + Seq::empty() =~= query.deep_view());
        },
    }
}

/// Adds a query parameter if it has a value.
fn push_bool_param(query: &mut Vec<(String, String)>, name: &str, value: Option<bool>)
    ensures
        final(query).deep_view() == old(query).deep_view() + bool_param(name@, value),
{
    match value {
        Some(b) => push_param(query, name, bool_text(b)),
        None => {
            assert(query.deep_view() + Seq::empty() =~= query.deep_view());
        },
    }
}

/// A list of query parameters to start from.
fn no_params() -> (query: Vec<(String, String)>)
    ensures
        query.deep_view() == Seq::<(Seq<char>, Seq<char>)>::empty(),
{
    let query: Vec<(String, String)> = Vec::new();
    assert(query.deep_view() =~= Seq::<(Seq<char>, Seq<char>)>::empty());
    query
}

/// Low-level client that directly wraps the ListenBrainz HTTP API.
///
/// Client exposes functions that map one-to-one to the API methods described
/// in the ListenBrainz API docs. It holds the root of the API and nothing
/// else, and none of its functions changes it.
#[derive(Debug, Clone, PartialEq, Eq)]
pub struct Client {
    api_root_url: String,
}

impl Client {
    /// The root that the paths of the endpoints are appended to.
    pub closed spec fn api_root(&self) -> Seq<char> {
        self.api_root_url@
    }

    /// Construct a new client.
    pub fn new() -> (client: Client)
        ensures
            client.api_root() == API_ROOT_URL@,
    {
        Client::new_with_url(API_ROOT_URL)
    }

    /// Construct a new client with a custom API URL.
    pub fn new_with_url(url: &str) -> (client: Client)
        ensures
            client.api_root() == url@,
    {
        Client { api_root_url: url.to_owned() }
    }

    /// Get the API URL of this client.
    pub fn api_url(&self) -> (url: &str)
        ensures
            url@ == self.api_root(),
    {
        self.api_root_url.as_str()
    }

    /// The API root followed by the path of an endpoint.
    fn url_of(&self, endpoint: Endpoint) -> (url: String)
        ensures
            url@ == self.api_root() + endpoint.path(),
    {
        let mut url = self.api_root_url.clone();
        url.append(endpoint.to_string().as_str());
        url
    }

    /// Helper method to prepare a GET request against an endpoint.
    fn get<R>(&self, endpoint: Endpoint, query: Vec<(String, String)>) -> (call: Call<R>)
        ensures
            call.request.deep_view() == get_request(
                self.api_root(),
                endpoint.path(),
                query.deep_view(),
            ),
            call.request.deep_view().well_formed() == call.request.deep_view().distinct_names(),
    {
        Call {
            request: Request {
                method: Method::Get,
                url: self.url_of(endpoint),
                query,
                token: None,
                body: None,
            },
            expected: PhantomData,
        }
    }

    /// Helper method to prepare a GET request against (most) statistics
    /// endpoints that share common query parameters. Whatever the request
    /// is, an answer with status 204 to it means that there are no
    /// statistics, which is no error.
    pub fn get_stats<R: ResponseType>(
        &self,
        endpoint: Endpoint,
        count: Option<u64>,
        offset: Option<u64>,
        range: Option<&str>,
    ) -> (call: StatsCall<R>)
        ensures
            call.request.deep_view() == get_request(
                self.api_root(),
                endpoint.path(),
                stats_query(count, offset, range),
            ),
            call.request.deep_view().well_formed(),
            forall|response: ResponseModel|
                response.status == 204 ==> #[trigger] StatsCall::<R>::answer(response) matches Ok(
                    None,
                ),
    {
        proof {
            lemma_query_names_distinct();
        }
        self.get_stats_with(endpoint, Client::stats_params(count, offset, range))
    }

    /// Helper method to prepare a GET request against a statistics endpoint
    /// with query parameters of its own.
    fn get_stats_with<R>(&self, endpoint: Endpoint, query: Vec<(String, String)>) -> (call:
        StatsCall<R>)
        ensures
            call.request.deep_view() == get_request(
                self.api_root(),
                endpoint.path(),
                query.deep_view(),
            ),
            call.request.deep_view().well_formed() == call.request.deep_view().distinct_names(),
    {
        StatsCall {
            request: Request {
                method: Method::Get,
                url: self.url_of(endpoint),
                query,
                token: None,
                body: None,
            },
            expected: PhantomData,
        }
    }

    /// The query parameters that most statistics endpoints share.
    fn stats_params(count: Option<u64>, offset: Option<u64>, range: Option<&str>) -> (query: Vec<
        (String, String),
    >)
        ensures
            query.deep_view() == stats_query(count, offset, range),
    {
        let mut query = no_params();
        push_u64_param(&mut query, "count", count);
        push_u64_param(&mut query, "offset", offset);
        push_text_param(&mut query, "range", range);
        assert(query.deep_view() =~= stats_query(count, offset, range));
        query
    }

    /// Helper method to prepare a POST request against an endpoint that
    /// expects JSON data.
    fn post<D: ToJson, R>(&self, endpoint: Endpoint, token: &str, data: &D) -> (r: Result<
        Call<R>,
        Error,
    >)
        ensures
            prepared(r) == posted(
                self.api_root(),
                endpoint.path(),
                token@,
                D::encoded(data.deep_view()),
            ),
    {
        self.post_body(endpoint, token, write_value(&data.to_json()))
    }

    /// Prepares a POST request against an endpoint, where `body` is the
    /// request data written as JSON, or `None` if they could not be written:
    /// there is no request to send then.
    pub fn post_body<R>(&self, endpoint: Endpoint, token: &str, body: Option<String>) -> (r:
        Result<Call<R>, Error>)
        ensures
            prepared(r) == match body {
                Some(text) => Ok::<RequestModel, ErrorModel>(
                    post_request(self.api_root(), endpoint.path(), token@, text@),
                ),
                None => Err::<RequestModel, ErrorModel>(ErrorModel::RequestJson),
            },
            r matches Ok(call) ==> call.request.deep_view().well_formed(),
    {
        match body {
            Some(text) => {
                let query = no_params();
                Ok(
                    Call {
                        request: Request {
                            method: Method::Post,
                            url: self.url_of(endpoint),
                            query,
                            token: Some(token.to_owned()),
                            body: Some(text),
                        },
                        expected: PhantomData,
                    },
                )
            },
            None => Err(Error::RequestJson),
        }
    }

    /// Endpoint: `submit-listens`
    pub fn submit_listens(&self, token: &str, data: SubmitListens) -> (r: Result<
        Call<SubmitListensResponse>,
        Error,
    >)
        ensures
            prepared(r) == posted(
                self.api_root(),
                "submit-listens"@,
                token@,
                SubmitListens::encoded(data.deep_view()),
            ),
            r matches Ok(call) ==> call.request.deep_view().well_formed(),
    {
        self.post(Endpoint::SubmitListens, token, &data)
    }

    /// Endpoint: `validate-token`
    pub fn validate_token(&self, token: &str) -> (call: Call<ValidateTokenResponse>)
        ensures
            call.request.deep_view() == (RequestModel {
                token: Some(token@),
                ..get_request(self.api_root(), "validate-token"@, Seq::empty())
            }),
            call.request.deep_view().well_formed(),
    {
        let mut call = self.get(Endpoint::ValidateToken, no_params());
        call.request.token = Some(token.to_owned());
        call
    }

    /// Endpoint: `delete-listen`
    pub fn delete_listen(&self, token: &str, data: DeleteListen) -> (r: Result<
        Call<DeleteListenResponse>,
        Error,
    >)
        ensures
            prepared(r) == posted(
                self.api_root(),
                "delete-listen"@,
                token@,
                DeleteListen::encoded(data.deep_view()),
            ),
            r matches Ok(call) ==> call.request.deep_view().well_formed(),
    {
        self.post(Endpoint::DeleteListen, token, &data)
    }

    /// Endpoint: `users/{user_list}/recent-listens`
    pub fn users_recent_listens(&self, user_list: &[&str]) -> (call: Call<
        UsersRecentListensResponse,
    >)
        ensures
            call.request.deep_view() == get_request(
                self.api_root(),
                Endpoint::UsersRecentListens(user_list).path(),
                Seq::empty(),
            ),
            call.request.deep_view().well_formed(),
    {
        self.get(Endpoint::UsersRecentListens(user_list), no_params())
    }

    /// Endpoint: `user/{user_name}/listen-count`
    pub fn user_listen_count(&self, user_name: &str) -> (call: Call<UserListenCountResponse>)
        ensures
            call.request.deep_view() == get_request(
                self.api_root(),
                Endpoint::UserListenCount(user_name).path(),
                Seq::empty(),
            ),
            call.request.deep_view().well_formed(),
    {
        self.get(Endpoint::UserListenCount(user_name), no_params())
    }

    /// Endpoint: `user/{user_name}/playing-now`
    pub fn user_playing_now(&self, user_name: &str) -> (call: Call<UserPlayingNowResponse>)
        ensures
            call.request.deep_view() == get_request(
                self.api_root(),
                Endpoint::UserPlayingNow(user_name).path(),
                Seq::empty(),
            ),
            call.request.deep_view().well_formed(),
    {
        self.get(Endpoint::UserPlayingNow(user_name), no_params())
    }

    /// Endpoint: `user/{user_name}/listens`
    pub fn user_listens(
        &self,
        user_name: &str,
        min_ts: Option<i64>,
        max_ts: Option<i64>,
        count: Option<u64>,
        time_range: Option<u64>,
    ) -> (call: Call<UserListensResponse>)
        ensures
            call.request.deep_view() == get_request(
                self.api_root(),
                Endpoint::UserListens(user_name).path(),
                i64_param("min_ts"@, min_ts) + i64_param("max_ts"@, max_ts) + u64_param(
                    "count"@,
                    count,
                ) + u64_param("time_range"@, time_range),
            ),
            call.request.deep_view().well_formed(),
    {
        proof {
            lemma_query_names_distinct();
        }
        let mut query = no_params();
        push_i64_param(&mut query, "min_ts", min_ts);
        push_i64_param(&mut query, "max_ts", max_ts);
        push_u64_param(&mut query, "count", count);
        push_u64_param(&mut query, "time_range", time_range);
        assert(query.deep_view() =~= i64_param("min_ts"@, min_ts) + i64_param("max_ts"@, max_ts)
            + u64_param("count"@, count) + u64_param("time_range"@, time_range));
        self.get(Endpoint::UserListens(user_name), query)
    }

    /// Endpoint: `latest-import` (`GET`)
    pub fn get_latest_import(&self, user_name: &str) -> (call: Call<GetLatestImportResponse>)
        ensures
            call.request.deep_view() == get_request(
                self.api_root(),
                "latest-import"@,
                seq![("user_name"@, user_name@)],
            ),
            call.request.deep_view().well_formed(),
    {
        let mut query = no_params();
        push_param(&mut query, "user_name", user_name.to_owned());
        assert(query.deep_view() =~= seq![("user_name"@, user_name@)]);
        self.get(Endpoint::LatestImport, query)
    }

    /// Endpoint: `latest-import` (`POST`)
    pub fn update_latest_import(&self, token: &str, data: UpdateLatestImport) -> (r: Result<
        Call<UpdateLatestImportResponse>,
        Error,
    >)
        ensures
            prepared(r) == posted(
                self.api_root(),
                "latest-import"@,
                token@,
                UpdateLatestImport::encoded(data.deep_view()),
            ),
            r matches Ok(call) ==> call.request.deep_view().well_formed(),
    {
        self.post(Endpoint::LatestImport, token, &data)
    }

    /// Endpoint: `stats/sitewide/artists`
    pub fn stats_sitewide_artists(
        &self,
        count: Option<u64>,
        offset: Option<u64>,
        range: Option<&str>,
    ) -> (call: StatsCall<StatsSitewideArtistsResponse>)
        ensures
            call.request.deep_view() == get_request(
                self.api_root(),
                "stats/sitewide/artists"@,
                stats_query(count, offset, range),
            ),
            call.request.deep_view().well_formed(),
    {
        proof {
            lemma_query_names_distinct();
        }
        self.get_stats(Endpoint::StatsSitewideArtists, count, offset, range)
    }

    /// Endpoint: `stats/user/{user_name}/listening-activity`
    pub fn stats_user_listening_activity(&self, user_name: &str, range: Option<&str>) -> (call:
        StatsCall<StatsUserListeningActivityResponse>)
        ensures
            call.request.deep_view() == get_request(
                self.api_root(),
                Endpoint::StatsUserListeningActivity(user_name).path(),
                param("range"@, text_of(range)),
            ),
            call.request.deep_view().well_formed(),
    {
        let mut query = no_params();
        push_text_param(&mut query, "range", range);
        assert(query.deep_view() =~= param("range"@, text_of(range)));
        self.get_stats_with(Endpoint::StatsUserListeningActivity(user_name), query)
    }

    /// Endpoint: `stats/user/{user_name}/daily-activity`
    pub fn stats_user_daily_activity(&self, user_name: &str, range: Option<&str>) -> (call:
        StatsCall<StatsUserDailyActivityResponse>)
        ensures
            call.request.deep_view() == get_request(
                self.api_root(),
                Endpoint::StatsUserDailyActivity(user_name).path(),
                param("range"@, text_of(range)),
            ),
            call.request.deep_view().well_formed(),
    {
        let mut query = no_params();
        push_text_param(&mut query, "range", range);
        assert(query.deep_view() =~= param("range"@, text_of(range)));
        self.get_stats_with(Endpoint::StatsUserDailyActivity(user_name), query)
    }

    /// Endpoint: `stats/user/{user_name}/recordings`
    pub fn stats_user_recordings(
        &self,
        user_name: &str,
        count: Option<u64>,
        offset: Option<u64>,
        range: Option<&str>,
    ) -> (call: StatsCall<StatsUserRecordingsResponse>)
        ensures
            call.request.deep_view() == get_request(
                self.api_root(),
                Endpoint::StatsUserRecordings(user_name).path(),
                stats_query(count, offset, range),
            ),
            call.request.deep_view().well_formed(),
    {
        proof {
            lemma_query_names_distinct();
        }
        self.get_stats(Endpoint::StatsUserRecordings(user_name), count, offset, range)
    }

    /// Endpoint: `stats/user/{user_name}/artist-map`
    pub fn stats_user_artist_map(
        &self,
        user_name: &str,
        range: Option<&str>,
        force_recalculate: Option<bool>,
    ) -> (call: StatsCall<StatsUserArtistMapResponse>)
        ensures
            call.request.deep_view() == get_request(
                self.api_root(),
                Endpoint::StatsUserArtistMap(user_name).path(),
                param("range"@, text_of(range)) + bool_param(
                    "force_recalculate"@,
                    force_recalculate,
                ),
            ),
            call.request.deep_view().well_formed(),
    {
        proof {
            lemma_query_names_distinct();
        }
        let mut query = no_params();
        push_text_param(&mut query, "range", range);
        push_bool_param(&mut query, "force_recalculate", force_recalculate);
        assert(query.deep_view() =~= param("range"@, text_of(range)) + bool_param(
            "force_recalculate"@,
            force_recalculate,
        ));
        self.get_stats_with(Endpoint::StatsUserArtistMap(user_name), query)
    }

    /// Endpoint: `stats/user/{user_name}/releases`
    pub fn stats_user_releases(
        &self,
        user_name: &str,
        count: Option<u64>,
        offset: Option<u64>,
        range: Option<&str>,
    ) -> (call: StatsCall<StatsUserReleasesResponse>)
        ensures
            call.request.deep_view() == get_request(
                self.api_root(),
                Endpoint::StatsUserReleases(user_name).path(),
                stats_query(count, offset, range),
            ),
            call.request.deep_view().well_formed(),
    {
        proof {
            lemma_query_names_distinct();
        }
        self.get_stats(Endpoint::StatsUserReleases(user_name), count, offset, range)
    }

    /// Endpoint: `stats/user/{user_name}/artists`
    pub fn stats_user_artists(
        &self,
        user_name: &str,
        count: Option<u64>,
        offset: Option<u64>,
        range: Option<&str>,
    ) -> (call: StatsCall<StatsUserArtistsResponse>)
        ensures
            call.request.deep_view() == get_request(
                self.api_root(),
                Endpoint::StatsUserArtists(user_name).path(),
                stats_query(count, offset, range),
            ),
            call.request.deep_view().well_formed(),
    {
        proof {
            lemma_query_names_distinct();
        }
        self.get_stats(Endpoint::StatsUserArtists(user_name), count, offset, range)
    }

    /// Endpoint: `stats/release-group/{release_group_mbid}/listeners`
    ///
    /// Get the top listeners for a release group, as well as the total
    /// number of listens for it.
    pub fn stats_release_group_listeners(
        &self,
        release_group_mbid: &str,
        range: Option<&str>,
    ) -> (call: StatsCall<StatsReleaseGroupListenersResponse>)
        ensures
            call.request.deep_view() == get_request(
                self.api_root(),
                Endpoint::StatsReleaseGroupListeners(release_group_mbid).path(),
                stats_query(None, None, range),
            ),
            call.request.deep_view().well_formed(),
    {
        proof {
            lemma_query_names_distinct();
        }
        self.get_stats(Endpoint::StatsReleaseGroupListeners(release_group_mbid), None, None, range)
    }

    /// Endpoint: `status/get-dump-info`
    pub fn status_get_dump_info(&self, id: Option<i64>) -> (call: Call<StatusGetDumpInfoResponse>)
        ensures
            call.request.deep_view() == get_request(
                self.api_root(),
                "status/get-dump-info"@,
                i64_param("id"@, id),
            ),
            call.request.deep_view().well_formed(),
    {
        let mut query = no_params();
        push_i64_param(&mut query, "id", id);
        assert(query.deep_view() =~= i64_param("id"@, id));
        self.get(Endpoint::StatusGetDumpInfo, query)
    }
}

impl Default for Client {
    fn default() -> (client: Client)
        ensures
            client.api_root() == API_ROOT_URL@,
    {
        Client::new()
    }
}

} // verus!
