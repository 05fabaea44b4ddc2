//! An ergonomic client that keeps a validated token.

use vstd::prelude::*;
use crate::codec::{no_items, ToJson};
use crate::error::{Error, ErrorModel};
use crate::http::RequestModel;
use crate::json::Json;
use crate::raw::client::{posted, prepared, text_of, Call, Client, API_ROOT_URL};
use crate::raw::request::{
    lemma_listen_times_written, time_written, written_listens, ListenType, Payload, PayloadModel,
    SubmitListens, SubmitListensModel, TrackMetadata, TrackMetadataModel,
};
use crate::raw::response::listens::{
    SubmitListensResponse, ValidateTokenResponse, ValidateTokenResponseModel,
};
use crate::raw::response::result_model;

verus! {

/// Contains a ListenBrainz token and the associated username for
/// authentication purposes.
#[derive(Debug, Clone, PartialEq, Eq)]
struct Auth {
    token: String,
    user: String,
}

/// The token of an authenticated client and the user that it belongs to.
pub struct AuthModel {
    pub token: Seq<char>,
    pub user: Seq<char>,
}

/// The mathematical value of a [`ListenBrainz`] client. A client is either
/// not authenticated, or it holds both a token and the name of its user.
pub struct ListenBrainzModel {
    pub api_root: Seq<char>,
    pub auth: Option<AuthModel>,
}

/// An ergonomic ListenBrainz client.
///
/// As opposed to [`Client`], this aims to be a convenient and high-level
/// wrapper of the ListenBrainz API.
#[derive(Debug, Clone, PartialEq, Eq)]
pub struct ListenBrainz {
    client: Client,
    auth: Option<Auth>,
}

impl DeepView for ListenBrainz {
    type V = ListenBrainzModel;

    closed spec fn deep_view(&self) -> ListenBrainzModel {
        ListenBrainzModel {
            api_root: self.client.api_root(),
            auth: match self.auth {
                Some(auth) => Some(AuthModel { token: auth.token@, user: auth.user@ }),
                None => None,
            },
        }
    }
}

/// Whether the API's answer to a token validation says that the token is
/// good: it is valid, and the answer names a user.
pub open spec fn validates(answer: ValidateTokenResponseModel) -> bool {
    &&& answer.valid
    &&& answer.user_name is Some
    &&& answer.user_name->0.len() > 0
}

/// The submission of one listen, as the convenience operations make it.
pub open spec fn submission(
    listen_type: ListenType,
    listened_at: Option<i64>,
    artist: Seq<char>,
    track: Seq<char>,
    release: Option<Seq<char>>,
) -> SubmitListensModel {
    SubmitListensModel {
        listen_type,
        payload: seq![
            PayloadModel {
                listened_at,
                track_metadata: TrackMetadataModel {
                    track_name: track,
                    artist_name: artist,
                    release_name: release,
                    additional_info: None,
                },
            },
        ],
    }
}

impl ListenBrainzModel {
    /// The client after an attempt to authenticate with `token`, where
    /// `validation` is how the validation of the token went. Only an answer
    /// that validates the token changes the client; it then holds the token
    /// and the user that the answer names, in place of what it held before.
    pub open spec fn after_authenticate(
        self,
        token: Seq<char>,
        validation: Result<ValidateTokenResponseModel, ErrorModel>,
    ) -> ListenBrainzModel {
        match validation {
            Ok(answer) if validates(answer) => ListenBrainzModel {
                auth: Some(AuthModel { token, user: answer.user_name->0 }),
                ..self
            },
            _ => self,
        }
    }

    /// What an attempt to authenticate reports: success for an answer that
    /// validates the token, an invalid token for an answer that does not,
    /// and the error itself where the validation failed.
    pub open spec fn authenticated(validation: Result<ValidateTokenResponseModel, ErrorModel>)
        -> Result<(), ErrorModel> {
        match validation {
            Ok(answer) => if validates(answer) {
                Ok(())
            } else {
                Err(ErrorModel::InvalidToken)
            },
            Err(e) => Err(e),
        }
    }

    /// What preparing the submission of a listen ends in: without
    /// authentication an error, with it the request to `submit-listens` in
    /// the name of the authenticated user.
    pub open spec fn submitted(self, listens: SubmitListensModel) -> Result<
        RequestModel,
        ErrorModel,
    > {
        match self.auth {
            Some(auth) => posted(
                self.api_root,
                "submit-listens"@,
                auth.token,
                SubmitListens::encoded(listens),
            ),
            None => Err(ErrorModel::NotAuthenticated),
        }
    }
}

/// The mathematical value of what an attempt to authenticate reports.
pub open spec fn report_model(r: Result<(), Error>) -> Result<(), ErrorModel> {
    match r {
        Ok(_) => Ok(()),
        Err(e) => Err(e.deep_view()),
    }
}

impl ListenBrainz {
    /// Construct a new ListenBrainz client that is not authenticated.
    pub fn new() -> (r: ListenBrainz)
        ensures
            r.deep_view() == (ListenBrainzModel {
                api_root: API_ROOT_URL@,
                auth: None,
            }),
    {
        ListenBrainz { client: Client::new(), auth: None }
    }

    /// Construct a new ListenBrainz client with a custom API URL that is not
    /// authenticated.
    pub fn new_with_url(url: &str) -> (r: ListenBrainz)
        ensures
            r.deep_view() == (ListenBrainzModel { api_root: url@, auth: None }),
    {
        ListenBrainz { client: Client::new_with_url(url), auth: None }
    }

    /// The low-level client that prepares the requests of this client.
    pub fn client(&self) -> (r: &Client)
        ensures
            r.api_root() == self.deep_view().api_root,
    {
        &self.client
    }

    /// Get the API URL of this client.
    pub fn api_url(&self) -> (url: &str)
        ensures
            url@ == self.deep_view().api_root,
    {
        self.client.api_url()
    }

    /// Check if this client is authenticated.
    pub fn is_authenticated(&self) -> (r: bool)
        ensures
            r == self.deep_view().auth is Some,
    {
        self.auth.is_some()
    }

    /// Return the token if authenticated or `None` if not.
    pub fn authenticated_token(&self) -> (r: Option<&str>)
        ensures
            match self.deep_view().auth {
                Some(auth) => r matches Some(token) && token@ == auth.token,
                None => r is None,
            },
    {
        match &self.auth {
            Some(auth) => Some(auth.token.as_str()),
            None => None,
        }
    }

    /// Return the user if authenticated or `None` if not.
    pub fn authenticated_user(&self) -> (r: Option<&str>)
        ensures
            match self.deep_view().auth {
                Some(auth) => r matches Some(user) && user@ == auth.user,
                None => r is None,
            },
    {
        match &self.auth {
            Some(auth) => Some(auth.user.as_str()),
            None => None,
        }
    }

    /// Authenticate this client with the given token, where `validation` is
    /// the outcome of the `validate-token` operation for that token.
    ///
    /// If the token is valid, authenticates the client. In case the client
    /// was already authenticated, the old information is discarded and the
    /// new token will be used. Any other outcome leaves the client as it was.
    ///
    /// # Errors
    ///
    /// If the token was invalid, returns [`Error::InvalidToken`]. If there
    /// was an error while validating the token, that error is returned.
    pub fn authenticate(
        &mut self,
        token: &str,
        validation: Result<ValidateTokenResponse, Error>,
    ) -> (r: Result<(), Error>)
        ensures
            final(self).deep_view() == old(self).deep_view().after_authenticate(
                token@,
                result_model(validation),
            ),
            report_model(r) == ListenBrainzModel::authenticated(result_model(validation)),
    {
        match validation {
            Ok(answer) => {
                if answer.valid {
                    match answer.user_name {
                        Some(user) => {
                            if !user.as_str().is_empty() {
                                self.auth = Some(Auth { token: token.to_owned(), user });
                                return Ok(());
                            }
                        },
                        None => {},
                    }
                }
                Err(Error::InvalidToken)
            },
            Err(e) => Err(e),
        }
    }

    /// Helper method to prepare the submission of one listen (either
    /// "single", "playing now" or "import"). Without authentication nothing
    /// is prepared. With it, the request goes to `submit-listens` in the name
    /// of the authenticated user and holds the one listen; a listen that is
    /// playing now is written without the time.
    pub fn submit_listen(
        &self,
        listen_type: ListenType,
        timestamp: Option<i64>,
        artist: &str,
        track: &str,
        release: Option<&str>,
    ) -> (r: Result<Call<SubmitListensResponse>, Error>)
        ensures
            prepared(r) == self.deep_view().submitted(
                submission(
                    listen_type,
                    timestamp,
                    artist@,
                    track@,
                    text_of(release),
                ),
            ),
            r matches Ok(call) ==> call.request.deep_view().well_formed(),
            self.deep_view().auth is None ==> (r matches Err(Error::NotAuthenticated)),
            self.deep_view().auth is Some ==> !(r matches Err(Error::NotAuthenticated)),
            self.deep_view().auth is Some ==> (r matches Ok(call) ==> call.request.deep_view().token
                == Some(self.deep_view().auth->0.token)),
    {
        let token = match &self.auth {
            Some(auth) => auth.token.as_str(),
            None => {
                return Err(Error::NotAuthenticated);
            },
        };
        let payload = Payload {
            listened_at: timestamp,
            track_metadata: TrackMetadata {
                track_name: track.to_owned(),
                artist_name: artist.to_owned(),
                release_name: match release {
                    Some(name) => Some(name.to_owned()),
                    None => None,
                },
                additional_info: None,
            },
        };
        let mut listens: Vec<Payload> = no_items();
        listens.push(payload);
        let data = SubmitListens { listen_type, payload: listens };
        assert(data.deep_view().payload =~= seq![payload.deep_view()]);
        self.client.submit_listens(token, data)
    }

    /// Prepare the submission of a listened track with `now`, the current
    /// UNIX time, as the listen time. This requires authentication.
    ///
    /// # Errors
    ///
    /// If not authenticated, returns [`Error::NotAuthenticated`].
    pub fn listen(&self, artist: &str, track: &str, release: Option<&str>, now: i64) -> (r: Result<
        Call<SubmitListensResponse>,
        Error,
    >)
        ensures
            prepared(r) == self.deep_view().submitted(
                submission(
                    ListenType::Single,
                    Some(now),
                    artist@,
                    track@,
                    text_of(release),
                ),
            ),
            r matches Ok(call) ==> call.request.deep_view().well_formed(),
    {
        self.submit_listen(ListenType::Single, Some(now), artist, track, release)
    }

    /// Prepare the submission of a listened track with the given listen
    /// time, intended for importing previously saved listens. This requires
    /// authentication.
    ///
    /// # Errors
    ///
    /// If not authenticated, returns [`Error::NotAuthenticated`].
    pub fn import(&self, artist: &str, track: &str, release: Option<&str>, timestamp: i64) -> (r:
        Result<Call<SubmitListensResponse>, Error>)
        ensures
            prepared(r) == self.deep_view().submitted(
                submission(
                    ListenType::Import,
                    Some(timestamp),
                    artist@,
                    track@,
                    text_of(release),
                ),
            ),
            r matches Ok(call) ==> call.request.deep_view().well_formed(),
    {
        self.submit_listen(ListenType::Import, Some(timestamp), artist, track, release)
    }

    /// Prepare the submission of a currently playing track. It carries no
    /// listen time. This requires authentication.
    ///
    /// # Errors
    ///
    /// If not authenticated, returns [`Error::NotAuthenticated`].
    pub fn playing_now(&self, artist: &str, track: &str, release: Option<&str>) -> (r: Result<
        Call<SubmitListensResponse>,
        Error,
    >)
        ensures
            prepared(r) == self.deep_view().submitted(
                submission(
                    ListenType::PlayingNow,
                    None,
                    artist@,
                    track@,
                    text_of(release),
                ),
            ),
            r matches Ok(call) ==> call.request.deep_view().well_formed(),
    {
        self.submit_listen(ListenType::PlayingNow, None, artist, track, release)
    }
}

impl Default for ListenBrainz {
    fn default() -> (r: ListenBrainz)
        ensures
            r.deep_view() == (ListenBrainzModel {
                api_root: API_ROOT_URL@,
                auth: None,
            }),
    {
        ListenBrainz::new()
    }
}

/// The time that the one listen of a submitted document is written with, if
/// it is written with any.
pub open spec fn written_time(body: Json) -> Option<Json> {
    match body.member("payload"@) {
        Some(Json::Array(items)) if items.len() == 1 => items[0].member("listened_at"@),
        _ => None,
    }
}

/// The document of a convenience submission holds the time of the listen
/// exactly when one was given and the listen is not playing now, and then
/// that very number. So a listen that is playing now is written without a
/// time, and a single or imported listen is written with its own.
pub proof fn lemma_submission_time(
    listen_type: ListenType,
    listened_at: Option<i64>,
    artist: Seq<char>,
    track: Seq<char>,
    release: Option<Seq<char>>,
)
    ensures
        written_time(
            SubmitListens::encoded(submission(listen_type, listened_at, artist, track, release)),
        ) == time_written(
            listen_type,
            submission(listen_type, listened_at, artist, track, release).payload[0],
        ),
        listen_type is PlayingNow ==> written_time(
            SubmitListens::encoded(submission(listen_type, listened_at, artist, track, release)),
        ) is None,
        !(listen_type is PlayingNow) ==> written_time(
            SubmitListens::encoded(submission(listen_type, listened_at, artist, track, release)),
        ) == match listened_at {
            Some(at) => Some(Json::Int(at as int)),
            None => None::<Json>,
        },
{
    let listens = submission(listen_type, listened_at, artist, track, release);
    lemma_listen_times_written(listens);
    assert(written_listens(SubmitListens::encoded(listens)).len() == 1);
    assert(written_time(SubmitListens::encoded(listens)) == written_listens(
        SubmitListens::encoded(listens),
    )[0].member("listened_at"@));
}

/// Authentication is all or nothing.
///
/// An answer that validates the token authenticates the client, whatever it
/// held before, and every submission that it prepares from then on is made
/// with that token. Any other outcome of the validation leaves the client as
/// it was and is reported as an error: as an invalid token where the API
/// answered, as the error itself where it did not. A client that was not
/// authenticated then still prepares no submission.
pub proof fn lemma_authentication(
    client: ListenBrainzModel,
    token: Seq<char>,
    validation: Result<ValidateTokenResponseModel, ErrorModel>,
    listens: SubmitListensModel,
)
    ensures
        ({
            let next = client.after_authenticate(token, validation);
            let report = ListenBrainzModel::authenticated(validation);
            if validation is Ok && validates(validation->Ok_0) {
                &&& report == Ok::<(), ErrorModel>(())
                &&& next.api_root == client.api_root
                &&& next.auth == Some(AuthModel { token, user: validation->Ok_0.user_name->0 })
                &&& !(next.submitted(listens) matches Err(ErrorModel::NotAuthenticated))
                &&& next.submitted(listens) matches Ok(request) ==> request.token == Some(token)
            } else {
                &&& next == client
                &&& report is Err
                &&& validation is Ok ==> report == Err::<(), ErrorModel>(ErrorModel::InvalidToken)
                &&& validation matches Err(e) ==> report == Err::<(), ErrorModel>(e)
                &&& client.auth is None ==> next.submitted(listens) == Err::<
                    RequestModel,
                    ErrorModel,
                >(ErrorModel::NotAuthenticated)
            }
        }),
{
}

} // verus!
