//! Low-level response data models, and the classification of a response.
//!
//! Every response type has the `rate_limit` field, which contains rate
//! limiting information. See the documentation of the [`RateLimit`] type for
//! more details.

use vstd::prelude::*;
use crate::codec::FromJson;
use crate::error::{
    document, error_of, is_error_status, read_document, read_model, ApiError, ApiErrorModel, Error,
    ErrorModel, Malformed,
};
use crate::http::{header_value, Response, ResponseModel};
use crate::text::{parse_i64, parse_u64, parsed_i64, parsed_u64};

pub mod art;
pub mod listens;
pub mod misc;
pub mod playlists;
pub mod social;
pub mod statistics;

pub use self::art::ArtGridResponse;
pub use self::listens::{
    DeleteListenResponse, GetLatestImportResponse, SubmitListensResponse,
    UpdateLatestImportResponse, UserListenCountPayload, UserListenCountResponse, UserListensListen,
    UserListensMBIDMapping, UserListensMappingArtist, UserListensPayload, UserListensResponse,
    UserListensTrackMetadata, UserPlayingNowListen, UserPlayingNowPayload, UserPlayingNowResponse,
    UserPlayingNowTrackMetadata, UsersRecentListensListen, UsersRecentListensPayload,
    UsersRecentListensResponse, UsersRecentListensTrackMetadata, ValidateTokenResponse,
};
pub use self::misc::StatusGetDumpInfoResponse;
pub use self::playlists::{
    GetPlaylistResponse, PlaylistCopyResponse, PlaylistCreateResponse, PlaylistDeleteResponse,
    UserPlaylistsCollaboratorResponse, UserPlaylistsCreatedForResponse, UserPlaylistsResponse,
};
pub use self::social::{
    UserFollowResponse, UserFollowersResponse, UserFollowingResponse, UserUnfollowResponse,
};
pub use self::statistics::{
    StatsReleaseGroupListenersListeners, StatsReleaseGroupListenersPayload,
    StatsReleaseGroupListenersResponse, StatsSitewideArtistsArtist, StatsSitewideArtistsPayload,
    StatsSitewideArtistsResponse, StatsSitewideArtistsTimeRange, StatsUserArtistMapCountry,
    StatsUserArtistMapPayload, StatsUserArtistMapResponse, StatsUserArtistsArtist,
    StatsUserArtistsPayload, StatsUserArtistsResponse, StatsUserDailyActivityDailyActivity,
    StatsUserDailyActivityHour, StatsUserDailyActivityPayload, StatsUserDailyActivityResponse,
    StatsUserListeningActivityListeningActivity, StatsUserListeningActivityPayload,
    StatsUserListeningActivityResponse, StatsUserRecordingsPayload, StatsUserRecordingsRecording,
    StatsUserRecordingsResponse, StatsUserReleasesPayload, StatsUserReleasesRelease,
    StatsUserReleasesResponse,
};

verus! {

/// Contains rate limiting information.
///
/// Prefer using the `reset_in` field over `reset`, as the former is resilient
/// against clients with incorrect clocks.
#[derive(Debug, Clone, Copy, PartialEq, Eq)]
pub struct RateLimit {
    /// How many requests the client may make in the current time window.
    pub limit: u64,
    /// How many of them are left.
    pub remaining: u64,
    /// The seconds until the current time window ends.
    pub reset_in: u64,
    /// The UNIX time at which the current time window ends.
    pub reset: i64,
}

/// The unsigned number in the first header called `name`.
pub open spec fn header_u64(headers: Seq<(Seq<char>, Seq<char>)>, name: Seq<char>) -> Option<u64> {
    match header_value(headers, name) {
        Some(value) => parsed_u64(value),
        None => None,
    }
}

/// The signed number in the first header called `name`.
pub open spec fn header_i64(headers: Seq<(Seq<char>, Seq<char>)>, name: Seq<char>) -> Option<i64> {
    match header_value(headers, name) {
        Some(value) => parsed_i64(value),
        None => None,
    }
}

/// The rate limiting information that a set of headers carries: all four
/// `X-RateLimit-` headers must be there and hold a number.
pub open spec fn rate_limit_of(headers: Seq<(Seq<char>, Seq<char>)>) -> Option<RateLimit> {
    match (
        header_u64(headers, "X-RateLimit-Limit"@),
        header_u64(headers, "X-RateLimit-Remaining"@),
        header_u64(headers, "X-RateLimit-Reset-In"@),
        header_i64(headers, "X-RateLimit-Reset"@),
    ) {
        (Some(limit), Some(remaining), Some(reset_in), Some(reset)) => Some(
            RateLimit { limit, remaining, reset_in, reset },
        ),
        _ => None,
    }
}

/// Reads the unsigned number in the first header called `name`.
fn read_header_u64(response: &Response, name: &str) -> (r: Option<u64>)
    ensures
        r == header_u64(response.deep_view().headers, name@),
{
    match response.header(name) {
        Some(value) => parse_u64(value),
        None => None,
    }
}

/// Reads the signed number in the first header called `name`.
fn read_header_i64(response: &Response, name: &str) -> (r: Option<i64>)
    ensures
        r == header_i64(response.deep_view().headers, name@),
{
    match response.header(name) {
        Some(value) => parse_i64(value),
        None => None,
    }
}

impl RateLimit {
    /// Extract rate limiting information from the `X-RateLimit-` headers.
    /// Only returns `Some` if all fields are present and valid.
    pub fn from_headers(response: &Response) -> (r: Option<RateLimit>)
        ensures
            r == rate_limit_of(response.deep_view().headers),
            r matches Some(found) ==> {
                &&& header_u64(response.deep_view().headers, "X-RateLimit-Limit"@) == Some(
                    found.limit,
                )
                &&& header_u64(response.deep_view().headers, "X-RateLimit-Remaining"@) == Some(
                    found.remaining,
                )
                &&& header_u64(response.deep_view().headers, "X-RateLimit-Reset-In"@) == Some(
                    found.reset_in,
                )
                &&& header_i64(response.deep_view().headers, "X-RateLimit-Reset"@) == Some(
                    found.reset,
                )
            },
            r is None ==> {
                ||| header_u64(response.deep_view().headers, "X-RateLimit-Limit"@) is None
                ||| header_u64(response.deep_view().headers, "X-RateLimit-Remaining"@) is None
                ||| header_u64(response.deep_view().headers, "X-RateLimit-Reset-In"@) is None
                ||| header_i64(response.deep_view().headers, "X-RateLimit-Reset"@) is None
            },
    {
        let limit = read_header_u64(response, "X-RateLimit-Limit")?;
        let remaining = read_header_u64(response, "X-RateLimit-Remaining")?;
        let reset_in = read_header_u64(response, "X-RateLimit-Reset-In")?;
        let reset = read_header_i64(response, "X-RateLimit-Reset")?;
        Some(RateLimit { limit, remaining, reset_in, reset })
    }
}

/// A document that the API sends in answer to one operation. Besides what
/// the body holds, it carries the rate limiting information of the response.
pub trait ResponseType: FromJson {
    /// The value `m` with its rate limiting information replaced.
    spec fn with_rate_limit(
        m: <Self as DeepView>::V,
        rate_limit: Option<RateLimit>,
    ) -> <Self as DeepView>::V;

    /// Replaces the rate limiting information and nothing else.
    fn set_rate_limit(&mut self, rate_limit: Option<RateLimit>)
        ensures
            final(self).deep_view() == Self::with_rate_limit(old(self).deep_view(), rate_limit),
    ;
}

/// What became of one exchange.
#[derive(Debug, Clone, PartialEq, Eq)]
pub enum Outcome<T> {
    /// The API did what was asked and sent this document.
    Success(T),
    /// The API has nothing to send: status 204. The statistics endpoints
    /// answer so when there is no data for the range that was asked for.
    NoContent,
    /// The API refused the request and said why.
    ApiError {
        code: u16,
        error: String,
    },
    /// The body is not the document that goes with the status.
    TransportError(Malformed),
}

/// The mathematical value of an [`Outcome`].
pub enum OutcomeModel<M> {
    Success(M),
    NoContent,
    ApiError { code: u16, error: Seq<char> },
    TransportError(Malformed),
}

impl<T: DeepView> DeepView for Outcome<T> {
    type V = OutcomeModel<T::V>;

    open spec fn deep_view(&self) -> OutcomeModel<T::V> {
        match self {
            Outcome::Success(t) => OutcomeModel::Success(t.deep_view()),
            Outcome::NoContent => OutcomeModel::NoContent,
            Outcome::ApiError { code, error } => OutcomeModel::ApiError {
                code: *code,
                error: error.deep_view(),
            },
            Outcome::TransportError(why) => OutcomeModel::TransportError(*why),
        }
    }
}

/// A classified response: what became of the exchange, and the rate limiting
/// information that came with it, whatever became of it.
#[derive(Debug, Clone, PartialEq, Eq)]
pub struct ResponseOutcome<T> {
    pub outcome: Outcome<T>,
    pub rate_limit: Option<RateLimit>,
}

/// The mathematical value of a [`ResponseOutcome`].
pub struct ResponseOutcomeModel<M> {
    pub outcome: OutcomeModel<M>,
    pub rate_limit: Option<RateLimit>,
}

impl<T: DeepView> DeepView for ResponseOutcome<T> {
    type V = ResponseOutcomeModel<T::V>;

    open spec fn deep_view(&self) -> ResponseOutcomeModel<T::V> {
        ResponseOutcomeModel { outcome: self.outcome.deep_view(), rate_limit: self.rate_limit }
    }
}

/// What the status of a response says of its body.
#[derive(Debug, Clone, Copy, PartialEq, Eq)]
pub enum Expected {
    /// A client or server error, status 400 to 599: the body describes it.
    ErrorDocument,
    /// Status 204: there is no body to read.
    Nothing,
    /// Any other status: the body is the document that the operation
    /// answers with.
    Document,
}

/// What a status says of the body that comes with it.
pub open spec fn expected_of(status: u16) -> Expected {
    if is_error_status(status) {
        Expected::ErrorDocument
    } else if status == 204 {
        Expected::Nothing
    } else {
        Expected::Document
    }
}

/// What becomes of an exchange with an error status, where `found` is what
/// reading the body as the API's description of an error gave.
pub open spec fn refused<M>(found: Result<ApiErrorModel, Malformed>) -> OutcomeModel<M> {
    match found {
        Ok(e) => OutcomeModel::ApiError { code: e.code, error: e.error },
        Err(why) => OutcomeModel::TransportError(why),
    }
}

/// What becomes of an exchange with a status that promises a document,
/// where `found` is what reading the body as a `T` gave.
pub open spec fn answered<T: ResponseType>(
    found: Result<T::V, Malformed>,
    rate_limit: Option<RateLimit>,
) -> OutcomeModel<T::V> {
    match found {
        Ok(m) => OutcomeModel::Success(T::with_rate_limit(m, rate_limit)),
        Err(why) => OutcomeModel::TransportError(why),
    }
}

/// What becomes of an exchange that ended in `response`, where a `T` is
/// expected. The status decides first what the body is read as.
pub open spec fn outcome_of<T: ResponseType>(response: ResponseModel) -> OutcomeModel<T::V> {
    match expected_of(response.status) {
        Expected::ErrorDocument => refused(document::<ApiError>(response.body)),
        Expected::Nothing => OutcomeModel::NoContent,
        Expected::Document => answered::<T>(
            document::<T>(response.body),
            rate_limit_of(response.headers),
        ),
    }
}

/// The classification of `response`, where a `T` is expected.
pub open spec fn classified<T: ResponseType>(response: ResponseModel) -> ResponseOutcomeModel<
    T::V,
> {
    ResponseOutcomeModel {
        outcome: outcome_of::<T>(response),
        rate_limit: rate_limit_of(response.headers),
    }
}

/// Tells from the status of a response what its body is to be read as.
pub fn expected(status: u16) -> (r: Expected)
    ensures
        r == expected_of(status),
{
    if 400 <= status && status <= 599 {
        Expected::ErrorDocument
    } else if status == 204 {
        Expected::Nothing
    } else {
        Expected::Document
    }
}

/// The outcome of an exchange with an error status: the API's error where
/// the body describes one, a malformed response where it does not.
pub fn refused_with<T: DeepView>(found: Result<ApiError, Malformed>) -> (r: Outcome<T>)
    ensures
        r.deep_view() == refused::<T::V>(read_model(found)),
{
    match found {
        Ok(e) => Outcome::ApiError { code: e.code, error: e.error },
        Err(why) => Outcome::TransportError(why),
    }
}

/// The outcome of an exchange with a status that promises a document: the
/// document together with the rate limiting information where the body
/// holds one, a malformed response where it does not.
pub fn answered_with<T: ResponseType>(
    found: Result<T, Malformed>,
    rate_limit: Option<RateLimit>,
) -> (r: Outcome<T>)
    ensures
        r.deep_view() == answered::<T>(read_model(found), rate_limit),
{
    match found {
        Ok(mut t) => {
            t.set_rate_limit(rate_limit);
            Outcome::Success(t)
        },
        Err(why) => Outcome::TransportError(why),
    }
}

/// Classifies a response to an operation that answers with a `T`.
///
/// The rate limiting information is read from the headers whatever the
/// status is, and never makes the classification fail.
pub fn classify<T: ResponseType>(response: &Response) -> (r: ResponseOutcome<T>)
    ensures
        r.deep_view() == classified::<T>(response.deep_view()),
        r.rate_limit == rate_limit_of(response.deep_view().headers),
        is_error_status(response.status) ==> match document::<ApiError>(
            response.deep_view().body,
        ) {
            Ok(e) => r.outcome.deep_view() == (OutcomeModel::<T::V>::ApiError {
                code: e.code,
                error: e.error,
            }),
            Err(why) => r.outcome == Outcome::<T>::TransportError(why),
        },
        !is_error_status(response.status) ==> !(r.outcome is ApiError),
        response.status == 204 <==> r.outcome is NoContent,
        r.outcome matches Outcome::Success(t) ==> document::<T>(response.deep_view().body)
            matches Ok(m) && t.deep_view() == T::with_rate_limit(m, r.rate_limit),
{
    let rate_limit = RateLimit::from_headers(response);
    let outcome = match expected(response.status) {
        Expected::ErrorDocument => refused_with(read_document::<ApiError>(response.body.as_str())),
        Expected::Nothing => Outcome::NoContent,
        Expected::Document => answered_with(
            read_document::<T>(response.body.as_str()),
            rate_limit,
        ),
    };
    ResponseOutcome { outcome, rate_limit }
}

/// The result that an operation hands to its caller for a classified
/// response, where the operation always answers with a document: status 204
/// is then a malformed response.
pub open spec fn result_of<M>(outcome: OutcomeModel<M>) -> Result<M, ErrorModel> {
    match outcome {
        OutcomeModel::Success(m) => Ok(m),
        OutcomeModel::NoContent => Err(ErrorModel::ResponseJson(Malformed::NoContent)),
        OutcomeModel::ApiError { code, error } => Err(ErrorModel::Api { code, error }),
        OutcomeModel::TransportError(why) => Err(ErrorModel::ResponseJson(why)),
    }
}

/// The result that an operation hands to its caller for a classified
/// response, where the operation answers 204 when it has no data: that is a
/// success without a document.
pub open spec fn optional_result_of<M>(outcome: OutcomeModel<M>) -> Result<Option<M>, ErrorModel> {
    match outcome {
        OutcomeModel::Success(m) => Ok(Some(m)),
        OutcomeModel::NoContent => Ok(None),
        OutcomeModel::ApiError { code, error } => Err(ErrorModel::Api { code, error }),
        OutcomeModel::TransportError(why) => Err(ErrorModel::ResponseJson(why)),
    }
}

/// The mathematical value of the result of an operation.
pub open spec fn result_model<T: DeepView>(r: Result<T, Error>) -> Result<T::V, ErrorModel> {
    match r {
        Ok(t) => Ok(t.deep_view()),
        Err(e) => Err(e.deep_view()),
    }
}

/// The typed result of an operation that always answers with a document.
pub fn from_response<T: ResponseType>(response: &Response) -> (r: Result<T, Error>)
    ensures
        result_model(r) == result_of(outcome_of::<T>(response.deep_view())),
        error_of(response.deep_view()) matches Some(e) ==> r matches Err(found) && found.deep_view()
            == e,
{
    match classify::<T>(response).outcome {
        Outcome::Success(t) => Ok(t),
        Outcome::NoContent => Err(Error::ResponseJson(Malformed::NoContent)),
        Outcome::ApiError { code, error } => Err(Error::Api { code, error }),
        Outcome::TransportError(why) => Err(Error::ResponseJson(why)),
    }
}

/// The typed result of an operation that answers 204 when it has no data.
pub fn from_optional_response<T: ResponseType>(response: &Response) -> (r: Result<
    Option<T>,
    Error,
>)
    ensures
        result_model(r) == optional_result_of(outcome_of::<T>(response.deep_view())),
        response.status == 204 ==> r matches Ok(None),
        error_of(response.deep_view()) matches Some(e) ==> r matches Err(found) && found.deep_view()
            == e,
{
    match classify::<T>(response).outcome {
        Outcome::Success(t) => Ok(Some(t)),
        Outcome::NoContent => Ok(None),
        Outcome::ApiError { code, error } => Err(Error::Api { code, error }),
        Outcome::TransportError(why) => Err(Error::ResponseJson(why)),
    }
}

} // verus!
