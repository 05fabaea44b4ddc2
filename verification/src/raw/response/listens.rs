//! Responses of the endpoints that submit, list and delete listens.

use vstd::prelude::*;
use crate::codec::{
    field, get_field, get_object_field, get_optional_field, is_object, object_field,
    optional_field, FromJson,
};
use crate::json::{object_entries, Json};
use crate::raw::response::{RateLimit, ResponseType};

verus! {

/// Response type for
/// [`Client::submit_listens`](crate::raw::Client::submit_listens).
#[derive(Debug, Clone, PartialEq, Eq)]
pub struct SubmitListensResponse {
    pub rate_limit: Option<RateLimit>,
    pub status: String,
}

/// The mathematical value of a [`SubmitListensResponse`].
pub struct SubmitListensResponseModel {
    pub rate_limit: Option<RateLimit>,
    pub status: Seq<char>,
}

impl DeepView for SubmitListensResponse {
    type V = SubmitListensResponseModel;

    open spec fn deep_view(&self) -> SubmitListensResponseModel {
        SubmitListensResponseModel {
            rate_limit: self.rate_limit,
            status: self.status.deep_view(),
        }
    }
}

impl FromJson for SubmitListensResponse {
    open spec fn decoded(j: Json) -> Option<SubmitListensResponseModel> {
        match field::<String>(j, "status"@) {
            Some(status) if j is Object => Some(
                SubmitListensResponseModel { rate_limit: None, status },
            ),
            _ => None,
        }
    }

    fn from_json(v: &serde_json::Value) -> (r: Option<SubmitListensResponse>) {
        if !is_object(v) {
            return None;
        }
        let status = get_field::<String>(v, "status")?;
        Some(SubmitListensResponse { rate_limit: None, status })
    }
}

impl ResponseType for SubmitListensResponse {
    open spec fn with_rate_limit(
        m: SubmitListensResponseModel,
        rate_limit: Option<RateLimit>,
    ) -> SubmitListensResponseModel {
        SubmitListensResponseModel { rate_limit, ..m }
    }

    fn set_rate_limit(&mut self, rate_limit: Option<RateLimit>) {
        self.rate_limit = rate_limit;
    }
}

/// Response type for
/// [`Client::validate_token`](crate::raw::Client::validate_token).
#[derive(Debug, Clone, PartialEq, Eq)]
pub struct ValidateTokenResponse {
    pub rate_limit: Option<RateLimit>,
    pub code: u16,
    pub message: String,
    pub valid: bool,
    pub user_name: Option<String>,
}

/// The mathematical value of a [`ValidateTokenResponse`].
pub struct ValidateTokenResponseModel {
    pub rate_limit: Option<RateLimit>,
    pub code: u16,
    pub message: Seq<char>,
    pub valid: bool,
    pub user_name: Option<Seq<char>>,
}

impl DeepView for ValidateTokenResponse {
    type V = ValidateTokenResponseModel;

    open spec fn deep_view(&self) -> ValidateTokenResponseModel {
        ValidateTokenResponseModel {
            rate_limit: self.rate_limit,
            code: self.code,
            message: self.message.deep_view(),
            valid: self.valid,
            user_name: self.user_name.deep_view(),
        }
    }
}

impl FromJson for ValidateTokenResponse {
    open spec fn decoded(j: Json) -> Option<ValidateTokenResponseModel> {
        match (
            field::<u16>(j, "code"@),
            field::<String>(j, "message"@),
            field::<bool>(j, "valid"@),
            optional_field::<String>(j, "user_name"@),
        ) {
            (Some(code), Some(message), Some(valid), Some(user_name)) if j is Object => Some(
                ValidateTokenResponseModel { rate_limit: None, code, message, valid, user_name },
            ),
            _ => None,
        }
    }

    fn from_json(v: &serde_json::Value) -> (r: Option<ValidateTokenResponse>) {
        if !is_object(v) {
            return None;
        }
        let code = get_field::<u16>(v, "code")?;
        let message = get_field::<String>(v, "message")?;
        let valid = get_field::<bool>(v, "valid")?;
        let user_name = get_optional_field::<String>(v, "user_name")?;
        Some(ValidateTokenResponse { rate_limit: None, code, message, valid, user_name })
    }
}

impl ResponseType for ValidateTokenResponse {
    open spec fn with_rate_limit(
        m: ValidateTokenResponseModel,
        rate_limit: Option<RateLimit>,
    ) -> ValidateTokenResponseModel {
        ValidateTokenResponseModel { rate_limit, ..m }
    }

    fn set_rate_limit(&mut self, rate_limit: Option<RateLimit>) {
        self.rate_limit = rate_limit;
    }
}

/// Response type for
/// [`Client::delete_listen`](crate::raw::Client::delete_listen).
#[derive(Debug, Clone, PartialEq, Eq)]
pub struct DeleteListenResponse {
    pub rate_limit: Option<RateLimit>,
    pub status: String,
}

/// The mathematical value of a [`DeleteListenResponse`].
pub struct DeleteListenResponseModel {
    pub rate_limit: Option<RateLimit>,
    pub status: Seq<char>,
}

impl DeepView for DeleteListenResponse {
    type V = DeleteListenResponseModel;

    open spec fn deep_view(&self) -> DeleteListenResponseModel {
        DeleteListenResponseModel {
            rate_limit: self.rate_limit,
            status: self.status.deep_view(),
        }
    }
}

impl FromJson for DeleteListenResponse {
    open spec fn decoded(j: Json) -> Option<DeleteListenResponseModel> {
        match field::<String>(j, "status"@) {
            Some(status) if j is Object => Some(
                DeleteListenResponseModel { rate_limit: None, status },
            ),
            _ => None,
        }
    }

    fn from_json(v: &serde_json::Value) -> (r: Option<DeleteListenResponse>) {
        if !is_object(v) {
            return None;
        }
        let status = get_field::<String>(v, "status")?;
        Some(DeleteListenResponse { rate_limit: None, status })
    }
}

impl ResponseType for DeleteListenResponse {
    open spec fn with_rate_limit(
        m: DeleteListenResponseModel,
        rate_limit: Option<RateLimit>,
    ) -> DeleteListenResponseModel {
        DeleteListenResponseModel { rate_limit, ..m }
    }

    fn set_rate_limit(&mut self, rate_limit: Option<RateLimit>) {
        self.rate_limit = rate_limit;
    }
}

/// Response type for
/// [`Client::users_recent_listens`](crate::raw::Client::users_recent_listens).
#[derive(Debug, Clone, PartialEq, Eq)]
pub struct UsersRecentListensResponse {
    pub rate_limit: Option<RateLimit>,
    pub payload: UsersRecentListensPayload,
}

/// The mathematical value of an [`UsersRecentListensResponse`].
pub struct UsersRecentListensResponseModel {
    pub rate_limit: Option<RateLimit>,
    pub payload: UsersRecentListensPayloadModel,
}

impl DeepView for UsersRecentListensResponse {
    type V = UsersRecentListensResponseModel;

    open spec fn deep_view(&self) -> UsersRecentListensResponseModel {
        UsersRecentListensResponseModel {
            rate_limit: self.rate_limit,
            payload: self.payload.deep_view(),
        }
    }
}

impl FromJson for UsersRecentListensResponse {
    open spec fn decoded(j: Json) -> Option<UsersRecentListensResponseModel> {
        match field::<UsersRecentListensPayload>(j, "payload"@) {
            Some(payload) if j is Object => Some(
                UsersRecentListensResponseModel { rate_limit: None, payload },
            ),
            _ => None,
        }
    }

    fn from_json(v: &serde_json::Value) -> (r: Option<UsersRecentListensResponse>) {
        if !is_object(v) {
            return None;
        }
        let payload = get_field::<UsersRecentListensPayload>(v, "payload")?;
        Some(UsersRecentListensResponse { rate_limit: None, payload })
    }
}

impl ResponseType for UsersRecentListensResponse {
    open spec fn with_rate_limit(
        m: UsersRecentListensResponseModel,
        rate_limit: Option<RateLimit>,
    ) -> UsersRecentListensResponseModel {
        UsersRecentListensResponseModel { rate_limit, ..m }
    }

    fn set_rate_limit(&mut self, rate_limit: Option<RateLimit>) {
        self.rate_limit = rate_limit;
    }
}

/// Type of the [`UsersRecentListensResponse::payload`] field.
#[derive(Debug, Clone, PartialEq, Eq)]
pub struct UsersRecentListensPayload {
    pub count: u64,
    pub listens: Vec<UsersRecentListensListen>,
    pub user_list: String,
}

/// The mathematical value of an [`UsersRecentListensPayload`].
pub struct UsersRecentListensPayloadModel {
    pub count: u64,
    pub listens: Seq<UsersRecentListensListenModel>,
    pub user_list: Seq<char>,
}

impl DeepView for UsersRecentListensPayload {
    type V = UsersRecentListensPayloadModel;

    open spec fn deep_view(&self) -> UsersRecentListensPayloadModel {
        UsersRecentListensPayloadModel {
            count: self.count,
            listens: self.listens.deep_view(),
            user_list: self.user_list.deep_view(),
        }
    }
}

impl FromJson for UsersRecentListensPayload {
    open spec fn decoded(j: Json) -> Option<UsersRecentListensPayloadModel> {
        match (
            field::<u64>(j, "count"@),
            field::<Vec<UsersRecentListensListen>>(j, "listens"@),
            field::<String>(j, "user_list"@),
        ) {
            (Some(count), Some(listens), Some(user_list)) if j is Object => Some(
                UsersRecentListensPayloadModel { count, listens, user_list },
            ),
            _ => None,
        }
    }

    fn from_json(v: &serde_json::Value) -> (r: Option<UsersRecentListensPayload>) {
        if !is_object(v) {
            return None;
        }
        let count = get_field::<u64>(v, "count")?;
        let listens = get_field::<Vec<UsersRecentListensListen>>(v, "listens")?;
        let user_list = get_field::<String>(v, "user_list")?;
        Some(UsersRecentListensPayload { count, listens, user_list })
    }
}

/// Type of the [`UsersRecentListensPayload::listens`] field.
#[derive(Debug, Clone, PartialEq, Eq)]
pub struct UsersRecentListensListen {
    pub user_name: String,
    pub inserted_at: String,
    pub listened_at: i64,
    pub recording_msid: String,
    pub track_metadata: UsersRecentListensTrackMetadata,
}

/// The mathematical value of an [`UsersRecentListensListen`].
pub struct UsersRecentListensListenModel {
    pub user_name: Seq<char>,
    pub inserted_at: Seq<char>,
    pub listened_at: i64,
    pub recording_msid: Seq<char>,
    pub track_metadata: UsersRecentListensTrackMetadataModel,
}

impl DeepView for UsersRecentListensListen {
    type V = UsersRecentListensListenModel;

    open spec fn deep_view(&self) -> UsersRecentListensListenModel {
        UsersRecentListensListenModel {
            user_name: self.user_name.deep_view(),
            inserted_at: self.inserted_at.deep_view(),
            listened_at: self.listened_at,
            recording_msid: self.recording_msid.deep_view(),
            track_metadata: self.track_metadata.deep_view(),
        }
    }
}

impl FromJson for UsersRecentListensListen {
    open spec fn decoded(j: Json) -> Option<UsersRecentListensListenModel> {
        match (
            field::<String>(j, "user_name"@),
            field::<String>(j, "inserted_at"@),
            field::<i64>(j, "listened_at"@),
            field::<String>(j, "recording_msid"@),
            field::<UsersRecentListensTrackMetadata>(j, "track_metadata"@),
        ) {
            (
                Some(user_name),
                Some(inserted_at),
                Some(listened_at),
                Some(recording_msid),
                Some(track_metadata),
            ) if j is Object => Some(
                UsersRecentListensListenModel {
                    user_name,
                    inserted_at,
                    listened_at,
                    recording_msid,
                    track_metadata,
                },
            ),
            _ => None,
        }
    }

    fn from_json(v: &serde_json::Value) -> (r: Option<UsersRecentListensListen>) {
        if !is_object(v) {
            return None;
        }
        let user_name = get_field::<String>(v, "user_name")?;
        let inserted_at = get_field::<String>(v, "inserted_at")?;
        let listened_at = get_field::<i64>(v, "listened_at")?;
        let recording_msid = get_field::<String>(v, "recording_msid")?;
        let track_metadata = get_field::<UsersRecentListensTrackMetadata>(v, "track_metadata")?;
        Some(
            UsersRecentListensListen {
                user_name,
                inserted_at,
                listened_at,
                recording_msid,
                track_metadata,
            },
        )
    }
}

/// Type of the [`UsersRecentListensListen::track_metadata`] field.
#[derive(Debug, Clone, PartialEq, Eq)]
pub struct UsersRecentListensTrackMetadata {
    pub artist_name: String,
    pub track_name: String,
    pub release_name: Option<String>,
    pub additional_info: serde_json::Map<String, serde_json::Value>,
}

/// The mathematical value of an [`UsersRecentListensTrackMetadata`].
pub struct UsersRecentListensTrackMetadataModel {
    pub artist_name: Seq<char>,
    pub track_name: Seq<char>,
    pub release_name: Option<Seq<char>>,
    pub additional_info: Map<Seq<char>, Json>,
}

impl DeepView for UsersRecentListensTrackMetadata {
    type V = UsersRecentListensTrackMetadataModel;

    open spec fn deep_view(&self) -> UsersRecentListensTrackMetadataModel {
        UsersRecentListensTrackMetadataModel {
            artist_name: self.artist_name.deep_view(),
            track_name: self.track_name.deep_view(),
            release_name: self.release_name.deep_view(),
            additional_info: object_entries(self.additional_info),
        }
    }
}

impl FromJson for UsersRecentListensTrackMetadata {
    open spec fn decoded(j: Json) -> Option<UsersRecentListensTrackMetadataModel> {
        match (
            field::<String>(j, "artist_name"@),
            field::<String>(j, "track_name"@),
            optional_field::<String>(j, "release_name"@),
            object_field(j, "additional_info"@),
        ) {
            (
                Some(artist_name),
                Some(track_name),
                Some(release_name),
                Some(additional_info),
            ) if j is Object => Some(
                UsersRecentListensTrackMetadataModel {
                    artist_name,
                    track_name,
                    release_name,
                    additional_info,
                },
            ),
            _ => None,
        }
    }

    fn from_json(v: &serde_json::Value) -> (r: Option<UsersRecentListensTrackMetadata>) {
        if !is_object(v) {
            return None;
        }
        let artist_name = get_field::<String>(v, "artist_name")?;
        let track_name = get_field::<String>(v, "track_name")?;
        let release_name = get_optional_field::<String>(v, "release_name")?;
        let additional_info = get_object_field(v, "additional_info")?;
        Some(
            UsersRecentListensTrackMetadata {
                artist_name,
                track_name,
                release_name,
                additional_info,
            },
        )
    }
}

/// Response type for
/// [`Client::user_listen_count`](crate::raw::Client::user_listen_count).
#[derive(Debug, Clone, PartialEq, Eq)]
pub struct UserListenCountResponse {
    pub rate_limit: Option<RateLimit>,
    pub payload: UserListenCountPayload,
}

/// The mathematical value of an [`UserListenCountResponse`].
pub struct UserListenCountResponseModel {
    pub rate_limit: Option<RateLimit>,
    pub payload: UserListenCountPayloadModel,
}

impl DeepView for UserListenCountResponse {
    type V = UserListenCountResponseModel;

    open spec fn deep_view(&self) -> UserListenCountResponseModel {
        UserListenCountResponseModel {
            rate_limit: self.rate_limit,
            payload: self.payload.deep_view(),
        }
    }
}

impl FromJson for UserListenCountResponse {
    open spec fn decoded(j: Json) -> Option<UserListenCountResponseModel> {
        match field::<UserListenCountPayload>(j, "payload"@) {
            Some(payload) if j is Object => Some(
                UserListenCountResponseModel { rate_limit: None, payload },
            ),
            _ => None,
        }
    }

    fn from_json(v: &serde_json::Value) -> (r: Option<UserListenCountResponse>) {
        if !is_object(v) {
            return None;
        }
        let payload = get_field::<UserListenCountPayload>(v, "payload")?;
        Some(UserListenCountResponse { rate_limit: None, payload })
    }
}

impl ResponseType for UserListenCountResponse {
    open spec fn with_rate_limit(
        m: UserListenCountResponseModel,
        rate_limit: Option<RateLimit>,
    ) -> UserListenCountResponseModel {
        UserListenCountResponseModel { rate_limit, ..m }
    }

    fn set_rate_limit(&mut self, rate_limit: Option<RateLimit>) {
        self.rate_limit = rate_limit;
    }
}

/// Type of the [`UserListenCountResponse::payload`] field.
#[derive(Debug, Clone, PartialEq, Eq)]
pub struct UserListenCountPayload {
    pub count: u64,
}

/// The mathematical value of an [`UserListenCountPayload`].
pub struct UserListenCountPayloadModel {
    pub count: u64,
}

impl DeepView for UserListenCountPayload {
    type V = UserListenCountPayloadModel;

    open spec fn deep_view(&self) -> UserListenCountPayloadModel {
        UserListenCountPayloadModel {
            count: self.count,
        }
    }
}

impl FromJson for UserListenCountPayload {
    open spec fn decoded(j: Json) -> Option<UserListenCountPayloadModel> {
        match field::<u64>(j, "count"@) {
            Some(count) if j is Object => Some(UserListenCountPayloadModel { count }),
            _ => None,
        }
    }

    fn from_json(v: &serde_json::Value) -> (r: Option<UserListenCountPayload>) {
        if !is_object(v) {
            return None;
        }
        let count = get_field::<u64>(v, "count")?;
        Some(UserListenCountPayload { count })
    }
}

/// Response type for
/// [`Client::user_playing_now`](crate::raw::Client::user_playing_now).
#[derive(Debug, Clone, PartialEq, Eq)]
pub struct UserPlayingNowResponse {
    pub rate_limit: Option<RateLimit>,
    pub payload: UserPlayingNowPayload,
}

/// The mathematical value of an [`UserPlayingNowResponse`].
pub struct UserPlayingNowResponseModel {
    pub rate_limit: Option<RateLimit>,
    pub payload: UserPlayingNowPayloadModel,
}

impl DeepView for UserPlayingNowResponse {
    type V = UserPlayingNowResponseModel;

    open spec fn deep_view(&self) -> UserPlayingNowResponseModel {
        UserPlayingNowResponseModel {
            rate_limit: self.rate_limit,
            payload: self.payload.deep_view(),
        }
    }
}

impl FromJson for UserPlayingNowResponse {
    open spec fn decoded(j: Json) -> Option<UserPlayingNowResponseModel> {
        match field::<UserPlayingNowPayload>(j, "payload"@) {
            Some(payload) if j is Object => Some(
                UserPlayingNowResponseModel { rate_limit: None, payload },
            ),
            _ => None,
        }
    }

    fn from_json(v: &serde_json::Value) -> (r: Option<UserPlayingNowResponse>) {
        if !is_object(v) {
            return None;
        }
        let payload = get_field::<UserPlayingNowPayload>(v, "payload")?;
        Some(UserPlayingNowResponse { rate_limit: None, payload })
    }
}

impl ResponseType for UserPlayingNowResponse {
    open spec fn with_rate_limit(
        m: UserPlayingNowResponseModel,
        rate_limit: Option<RateLimit>,
    ) -> UserPlayingNowResponseModel {
        UserPlayingNowResponseModel { rate_limit, ..m }
    }

    fn set_rate_limit(&mut self, rate_limit: Option<RateLimit>) {
        self.rate_limit = rate_limit;
    }
}

/// Type of the [`UserPlayingNowResponse::payload`] field.
#[derive(Debug, Clone, PartialEq, Eq)]
pub struct UserPlayingNowPayload {
    pub count: u8,
    pub user_id: String,
    pub listens: Vec<UserPlayingNowListen>,
    pub playing_now: bool,
}

/// The mathematical value of an [`UserPlayingNowPayload`].
pub struct UserPlayingNowPayloadModel {
    pub count: u8,
    pub user_id: Seq<char>,
    pub listens: Seq<UserPlayingNowListenModel>,
    pub playing_now: bool,
}

impl DeepView for UserPlayingNowPayload {
    type V = UserPlayingNowPayloadModel;

    open spec fn deep_view(&self) -> UserPlayingNowPayloadModel {
        UserPlayingNowPayloadModel {
            count: self.count,
            user_id: self.user_id.deep_view(),
            listens: self.listens.deep_view(),
            playing_now: self.playing_now,
        }
    }
}

impl FromJson for UserPlayingNowPayload {
    open spec fn decoded(j: Json) -> Option<UserPlayingNowPayloadModel> {
        match (
            field::<u8>(j, "count"@),
            field::<String>(j, "user_id"@),
            field::<Vec<UserPlayingNowListen>>(j, "listens"@),
            field::<bool>(j, "playing_now"@),
        ) {
            (Some(count), Some(user_id), Some(listens), Some(playing_now)) if j is Object => Some(
                UserPlayingNowPayloadModel { count, user_id, listens, playing_now },
            ),
            _ => None,
        }
    }

    fn from_json(v: &serde_json::Value) -> (r: Option<UserPlayingNowPayload>) {
        if !is_object(v) {
            return None;
        }
        let count = get_field::<u8>(v, "count")?;
        let user_id = get_field::<String>(v, "user_id")?;
        let listens = get_field::<Vec<UserPlayingNowListen>>(v, "listens")?;
        let playing_now = get_field::<bool>(v, "playing_now")?;
        Some(UserPlayingNowPayload { count, user_id, listens, playing_now })
    }
}

/// Type of the [`UserPlayingNowPayload::listens`] field.
#[derive(Debug, Clone, PartialEq, Eq)]
pub struct UserPlayingNowListen {
    pub track_metadata: UserPlayingNowTrackMetadata,
    pub playing_now: bool,
}

/// The mathematical value of an [`UserPlayingNowListen`].
pub struct UserPlayingNowListenModel {
    pub track_metadata: UserPlayingNowTrackMetadataModel,
    pub playing_now: bool,
}

impl DeepView for UserPlayingNowListen {
    type V = UserPlayingNowListenModel;

    open spec fn deep_view(&self) -> UserPlayingNowListenModel {
        UserPlayingNowListenModel {
            track_metadata: self.track_metadata.deep_view(),
            playing_now: self.playing_now,
        }
    }
}

impl FromJson for UserPlayingNowListen {
    open spec fn decoded(j: Json) -> Option<UserPlayingNowListenModel> {
        match (
            field::<UserPlayingNowTrackMetadata>(j, "track_metadata"@),
            field::<bool>(j, "playing_now"@),
        ) {
            (Some(track_metadata), Some(playing_now)) if j is Object => Some(
                UserPlayingNowListenModel { track_metadata, playing_now },
            ),
            _ => None,
        }
    }

    fn from_json(v: &serde_json::Value) -> (r: Option<UserPlayingNowListen>) {
        if !is_object(v) {
            return None;
        }
        let track_metadata = get_field::<UserPlayingNowTrackMetadata>(v, "track_metadata")?;
        let playing_now = get_field::<bool>(v, "playing_now")?;
        Some(UserPlayingNowListen { track_metadata, playing_now })
    }
}

/// Type of the [`UserPlayingNowListen::track_metadata`] field.
#[derive(Debug, Clone, PartialEq, Eq)]
pub struct UserPlayingNowTrackMetadata {
    pub artist_name: String,
    pub track_name: String,
    pub release_name: Option<String>,
    pub additional_info: serde_json::Map<String, serde_json::Value>,
}

/// The mathematical value of an [`UserPlayingNowTrackMetadata`].
pub struct UserPlayingNowTrackMetadataModel {
    pub artist_name: Seq<char>,
    pub track_name: Seq<char>,
    pub release_name: Option<Seq<char>>,
    pub additional_info: Map<Seq<char>, Json>,
}

impl DeepView for UserPlayingNowTrackMetadata {
    type V = UserPlayingNowTrackMetadataModel;

    open spec fn deep_view(&self) -> UserPlayingNowTrackMetadataModel {
        UserPlayingNowTrackMetadataModel {
            artist_name: self.artist_name.deep_view(),
            track_name: self.track_name.deep_view(),
            release_name: self.release_name.deep_view(),
            additional_info: object_entries(self.additional_info),
        }
    }
}

impl FromJson for UserPlayingNowTrackMetadata {
    open spec fn decoded(j: Json) -> Option<UserPlayingNowTrackMetadataModel> {
        match (
            field::<String>(j, "artist_name"@),
            field::<String>(j, "track_name"@),
            optional_field::<String>(j, "release_name"@),
            object_field(j, "additional_info"@),
        ) {
            (
                Some(artist_name),
                Some(track_name),
                Some(release_name),
                Some(additional_info),
            ) if j is Object => Some(
                UserPlayingNowTrackMetadataModel {
                    artist_name,
                    track_name,
                    release_name,
                    additional_info,
                },
            ),
            _ => None,
        }
    }

    fn from_json(v: &serde_json::Value) -> (r: Option<UserPlayingNowTrackMetadata>) {
        if !is_object(v) {
            return None;
        }
        let artist_name = get_field::<String>(v, "artist_name")?;
        let track_name = get_field::<String>(v, "track_name")?;
        let release_name = get_optional_field::<String>(v, "release_name")?;
        let additional_info = get_object_field(v, "additional_info")?;
        Some(UserPlayingNowTrackMetadata { artist_name, track_name, release_name, additional_info })
    }
}

/// Response type for
/// [`Client::user_listens`](crate::raw::Client::user_listens).
#[derive(Debug, Clone, PartialEq, Eq)]
pub struct UserListensResponse {
    pub rate_limit: Option<RateLimit>,
    pub payload: UserListensPayload,
}

/// The mathematical value of an [`UserListensResponse`].
pub struct UserListensResponseModel {
    pub rate_limit: Option<RateLimit>,
    pub payload: UserListensPayloadModel,
}

impl DeepView for UserListensResponse {
    type V = UserListensResponseModel;

    open spec fn deep_view(&self) -> UserListensResponseModel {
        UserListensResponseModel {
            rate_limit: self.rate_limit,
            payload: self.payload.deep_view(),
        }
    }
}

impl FromJson for UserListensResponse {
    open spec fn decoded(j: Json) -> Option<UserListensResponseModel> {
        match field::<UserListensPayload>(j, "payload"@) {
            Some(payload) if j is Object => Some(
                UserListensResponseModel { rate_limit: None, payload },
            ),
            _ => None,
        }
    }

    fn from_json(v: &serde_json::Value) -> (r: Option<UserListensResponse>) {
        if !is_object(v) {
            return None;
        }
        let payload = get_field::<UserListensPayload>(v, "payload")?;
        Some(UserListensResponse { rate_limit: None, payload })
    }
}

impl ResponseType for UserListensResponse {
    open spec fn with_rate_limit(
        m: UserListensResponseModel,
        rate_limit: Option<RateLimit>,
    ) -> UserListensResponseModel {
        UserListensResponseModel { rate_limit, ..m }
    }

    fn set_rate_limit(&mut self, rate_limit: Option<RateLimit>) {
        self.rate_limit = rate_limit;
    }
}

/// Type of the [`UserListensResponse::payload`] field.
#[derive(Debug, Clone, PartialEq, Eq)]
pub struct UserListensPayload {
    pub count: u64,
    pub latest_listen_ts: i64,
    pub oldest_listen_ts: i64,
    pub user_id: String,
    pub listens: Vec<UserListensListen>,
}

/// The mathematical value of an [`UserListensPayload`].
pub struct UserListensPayloadModel {
    pub count: u64,
    pub latest_listen_ts: i64,
    pub oldest_listen_ts: i64,
    pub user_id: Seq<char>,
    pub listens: Seq<UserListensListenModel>,
}

impl DeepView for UserListensPayload {
    type V = UserListensPayloadModel;

    open spec fn deep_view(&self) -> UserListensPayloadModel {
        UserListensPayloadModel {
            count: self.count,
            latest_listen_ts: self.latest_listen_ts,
            oldest_listen_ts: self.oldest_listen_ts,
            user_id: self.user_id.deep_view(),
            listens: self.listens.deep_view(),
        }
    }
}

impl FromJson for UserListensPayload {
    open spec fn decoded(j: Json) -> Option<UserListensPayloadModel> {
        match (
            field::<u64>(j, "count"@),
            field::<i64>(j, "latest_listen_ts"@),
            field::<i64>(j, "oldest_listen_ts"@),
            field::<String>(j, "user_id"@),
            field::<Vec<UserListensListen>>(j, "listens"@),
        ) {
            (
                Some(count),
                Some(latest_listen_ts),
                Some(oldest_listen_ts),
                Some(user_id),
                Some(listens),
            ) if j is Object => Some(
                UserListensPayloadModel {
                    count,
                    latest_listen_ts,
                    oldest_listen_ts,
                    user_id,
                    listens,
                },
            ),
            _ => None,
        }
    }

    fn from_json(v: &serde_json::Value) -> (r: Option<UserListensPayload>) {
        if !is_object(v) {
            return None;
        }
        let count = get_field::<u64>(v, "count")?;
        let latest_listen_ts = get_field::<i64>(v, "latest_listen_ts")?;
        let oldest_listen_ts = get_field::<i64>(v, "oldest_listen_ts")?;
        let user_id = get_field::<String>(v, "user_id")?;
        let listens = get_field::<Vec<UserListensListen>>(v, "listens")?;
        Some(UserListensPayload { count, latest_listen_ts, oldest_listen_ts, user_id, listens })
    }
}

/// Type of the [`UserListensPayload::listens`] field.
#[derive(Debug, Clone, PartialEq, Eq)]
pub struct UserListensListen {
    pub user_name: String,
    pub inserted_at: i64,
    pub listened_at: i64,
    pub recording_msid: String,
    pub track_metadata: UserListensTrackMetadata,
}

/// The mathematical value of an [`UserListensListen`].
pub struct UserListensListenModel {
    pub user_name: Seq<char>,
    pub inserted_at: i64,
    pub listened_at: i64,
    pub recording_msid: Seq<char>,
    pub track_metadata: UserListensTrackMetadataModel,
}

impl DeepView for UserListensListen {
    type V = UserListensListenModel;

    open spec fn deep_view(&self) -> UserListensListenModel {
        UserListensListenModel {
            user_name: self.user_name.deep_view(),
            inserted_at: self.inserted_at,
            listened_at: self.listened_at,
            recording_msid: self.recording_msid.deep_view(),
            track_metadata: self.track_metadata.deep_view(),
        }
    }
}

impl FromJson for UserListensListen {
    open spec fn decoded(j: Json) -> Option<UserListensListenModel> {
        match (
            field::<String>(j, "user_name"@),
            field::<i64>(j, "inserted_at"@),
            field::<i64>(j, "listened_at"@),
            field::<String>(j, "recording_msid"@),
            field::<UserListensTrackMetadata>(j, "track_metadata"@),
        ) {
            (
                Some(user_name),
                Some(inserted_at),
                Some(listened_at),
                Some(recording_msid),
                Some(track_metadata),
            ) if j is Object => Some(
                UserListensListenModel {
                    user_name,
                    inserted_at,
                    listened_at,
                    recording_msid,
                    track_metadata,
                },
            ),
            _ => None,
        }
    }

    fn from_json(v: &serde_json::Value) -> (r: Option<UserListensListen>) {
        if !is_object(v) {
            return None;
        }
        let user_name = get_field::<String>(v, "user_name")?;
        let inserted_at = get_field::<i64>(v, "inserted_at")?;
        let listened_at = get_field::<i64>(v, "listened_at")?;
        let recording_msid = get_field::<String>(v, "recording_msid")?;
        let track_metadata = get_field::<UserListensTrackMetadata>(v, "track_metadata")?;
        Some(
            UserListensListen {
                user_name,
                inserted_at,
                listened_at,
                recording_msid,
                track_metadata,
            },
        )
    }
}

/// Type of the [`UserListensListen::track_metadata`] field.
#[derive(Debug, Clone, PartialEq, Eq)]
pub struct UserListensTrackMetadata {
    pub artist_name: String,
    pub track_name: String,
    pub release_name: Option<String>,
    pub additional_info: serde_json::Map<String, serde_json::Value>,
    pub mbid_mapping: Option<UserListensMBIDMapping>,
}

/// The mathematical value of an [`UserListensTrackMetadata`].
pub struct UserListensTrackMetadataModel {
    pub artist_name: Seq<char>,
    pub track_name: Seq<char>,
    pub release_name: Option<Seq<char>>,
    pub additional_info: Map<Seq<char>, Json>,
    pub mbid_mapping: Option<UserListensMBIDMappingModel>,
}

impl DeepView for UserListensTrackMetadata {
    type V = UserListensTrackMetadataModel;

    open spec fn deep_view(&self) -> UserListensTrackMetadataModel {
        UserListensTrackMetadataModel {
            artist_name: self.artist_name.deep_view(),
            track_name: self.track_name.deep_view(),
            release_name: self.release_name.deep_view(),
            additional_info: object_entries(self.additional_info),
            mbid_mapping: self.mbid_mapping.deep_view(),
        }
    }
}

impl FromJson for UserListensTrackMetadata {
    open spec fn decoded(j: Json) -> Option<UserListensTrackMetadataModel> {
        match (
            field::<String>(j, "artist_name"@),
            field::<String>(j, "track_name"@),
            optional_field::<String>(j, "release_name"@),
            object_field(j, "additional_info"@),
            optional_field::<UserListensMBIDMapping>(j, "mbid_mapping"@),
        ) {
            (
                Some(artist_name),
                Some(track_name),
                Some(release_name),
                Some(additional_info),
                Some(mbid_mapping),
            ) if j is Object => Some(
                UserListensTrackMetadataModel {
                    artist_name,
                    track_name,
                    release_name,
                    additional_info,
                    mbid_mapping,
                },
            ),
            _ => None,
        }
    }

    fn from_json(v: &serde_json::Value) -> (r: Option<UserListensTrackMetadata>) {
        if !is_object(v) {
            return None;
        }
        let artist_name = get_field::<String>(v, "artist_name")?;
        let track_name = get_field::<String>(v, "track_name")?;
        let release_name = get_optional_field::<String>(v, "release_name")?;
        let additional_info = get_object_field(v, "additional_info")?;
        let mbid_mapping = get_optional_field::<UserListensMBIDMapping>(v, "mbid_mapping")?;
        Some(
            UserListensTrackMetadata {
                artist_name,
                track_name,
                release_name,
                additional_info,
                mbid_mapping,
            },
        )
    }
}

/// Type of the [`UserListensTrackMetadata::mbid_mapping`] field.
#[derive(Debug, Clone, PartialEq, Eq)]
pub struct UserListensMBIDMapping {
    pub artist_mbids: Option<Vec<String>>,
    pub artists: Option<Vec<UserListensMappingArtist>>,
    pub recording_mbid: String,
    pub recording_name: Option<String>,
    pub caa_id: Option<u64>,
    pub caa_release_mbid: Option<String>,
    pub release_mbid: Option<String>,
}

/// The mathematical value of an [`UserListensMBIDMapping`].
pub struct UserListensMBIDMappingModel {
    pub artist_mbids: Option<Seq<Seq<char>>>,
    pub artists: Option<Seq<UserListensMappingArtistModel>>,
    pub recording_mbid: Seq<char>,
    pub recording_name: Option<Seq<char>>,
    pub caa_id: Option<u64>,
    pub caa_release_mbid: Option<Seq<char>>,
    pub release_mbid: Option<Seq<char>>,
}

impl DeepView for UserListensMBIDMapping {
    type V = UserListensMBIDMappingModel;

    open spec fn deep_view(&self) -> UserListensMBIDMappingModel {
        UserListensMBIDMappingModel {
            artist_mbids: self.artist_mbids.deep_view(),
            artists: self.artists.deep_view(),
            recording_mbid: self.recording_mbid.deep_view(),
            recording_name: self.recording_name.deep_view(),
            caa_id: self.caa_id.deep_view(),
            caa_release_mbid: self.caa_release_mbid.deep_view(),
            release_mbid: self.release_mbid.deep_view(),
        }
    }
}

impl FromJson for UserListensMBIDMapping {
    open spec fn decoded(j: Json) -> Option<UserListensMBIDMappingModel> {
        match (
            optional_field::<Vec<String>>(j, "artist_mbids"@),
            optional_field::<Vec<UserListensMappingArtist>>(j, "artists"@),
            field::<String>(j, "recording_mbid"@),
            optional_field::<String>(j, "recording_name"@),
            optional_field::<u64>(j, "caa_id"@),
            optional_field::<String>(j, "caa_release_mbid"@),
            optional_field::<String>(j, "release_mbid"@),
        ) {
            (
                Some(artist_mbids),
                Some(artists),
                Some(recording_mbid),
                Some(recording_name),
                Some(caa_id),
                Some(caa_release_mbid),
                Some(release_mbid),
            ) if j is Object => Some(
                UserListensMBIDMappingModel {
                    artist_mbids,
                    artists,
                    recording_mbid,
                    recording_name,
                    caa_id,
                    caa_release_mbid,
                    release_mbid,
                },
            ),
            _ => None,
        }
    }

    fn from_json(v: &serde_json::Value) -> (r: Option<UserListensMBIDMapping>) {
        if !is_object(v) {
            return None;
        }
        let artist_mbids = get_optional_field::<Vec<String>>(v, "artist_mbids")?;
        let artists = get_optional_field::<Vec<UserListensMappingArtist>>(v, "artists")?;
        let recording_mbid = get_field::<String>(v, "recording_mbid")?;
        let recording_name = get_optional_field::<String>(v, "recording_name")?;
        let caa_id = get_optional_field::<u64>(v, "caa_id")?;
        let caa_release_mbid = get_optional_field::<String>(v, "caa_release_mbid")?;
        let release_mbid = get_optional_field::<String>(v, "release_mbid")?;
        Some(
            UserListensMBIDMapping {
                artist_mbids,
                artists,
                recording_mbid,
                recording_name,
                caa_id,
                caa_release_mbid,
                release_mbid,
            },
        )
    }
}

/// Type of the [`UserListensMBIDMapping::artists`] field.
#[derive(Debug, Clone, PartialEq, Eq)]
pub struct UserListensMappingArtist {
    pub artist_mbid: String,
    pub artist_credit_name: String,
    pub join_phrase: String,
}

/// The mathematical value of an [`UserListensMappingArtist`].
pub struct UserListensMappingArtistModel {
    pub artist_mbid: Seq<char>,
    pub artist_credit_name: Seq<char>,
    pub join_phrase: Seq<char>,
}

impl DeepView for UserListensMappingArtist {
    type V = UserListensMappingArtistModel;

    open spec fn deep_view(&self) -> UserListensMappingArtistModel {
        UserListensMappingArtistModel {
            artist_mbid: self.artist_mbid.deep_view(),
            artist_credit_name: self.artist_credit_name.deep_view(),
            join_phrase: self.join_phrase.deep_view(),
        }
    }
}

impl FromJson for UserListensMappingArtist {
    open spec fn decoded(j: Json) -> Option<UserListensMappingArtistModel> {
        match (
            field::<String>(j, "artist_mbid"@),
            field::<String>(j, "artist_credit_name"@),
            field::<String>(j, "join_phrase"@),
        ) {
            (Some(artist_mbid), Some(artist_credit_name), Some(join_phrase)) if j is Object => Some(
                UserListensMappingArtistModel { artist_mbid, artist_credit_name, join_phrase },
            ),
            _ => None,
        }
    }

    fn from_json(v: &serde_json::Value) -> (r: Option<UserListensMappingArtist>) {
        if !is_object(v) {
            return None;
        }
        let artist_mbid = get_field::<String>(v, "artist_mbid")?;
        let artist_credit_name = get_field::<String>(v, "artist_credit_name")?;
        let join_phrase = get_field::<String>(v, "join_phrase")?;
        Some(UserListensMappingArtist { artist_mbid, artist_credit_name, join_phrase })
    }
}

/// Response type for
/// [`Client::get_latest_import`](crate::raw::Client::get_latest_import).
#[derive(Debug, Clone, PartialEq, Eq)]
pub struct GetLatestImportResponse {
    pub rate_limit: Option<RateLimit>,
    pub latest_import: i64,
    pub musicbrainz_id: String,
}

/// The mathematical value of a [`GetLatestImportResponse`].
pub struct GetLatestImportResponseModel {
    pub rate_limit: Option<RateLimit>,
    pub latest_import: i64,
    pub musicbrainz_id: Seq<char>,
}

impl DeepView for GetLatestImportResponse {
    type V = GetLatestImportResponseModel;

    open spec fn deep_view(&self) -> GetLatestImportResponseModel {
        GetLatestImportResponseModel {
            rate_limit: self.rate_limit,
            latest_import: self.latest_import,
            musicbrainz_id: self.musicbrainz_id.deep_view(),
        }
    }
}

impl FromJson for GetLatestImportResponse {
    open spec fn decoded(j: Json) -> Option<GetLatestImportResponseModel> {
        match (
            field::<i64>(j, "latest_import"@),
            field::<String>(j, "musicbrainz_id"@),
        ) {
            (Some(latest_import), Some(musicbrainz_id)) if j is Object => Some(
                GetLatestImportResponseModel { rate_limit: None, latest_import, musicbrainz_id },
            ),
            _ => None,
        }
    }

    fn from_json(v: &serde_json::Value) -> (r: Option<GetLatestImportResponse>) {
        if !is_object(v) {
            return None;
        }
        let latest_import = get_field::<i64>(v, "latest_import")?;
        let musicbrainz_id = get_field::<String>(v, "musicbrainz_id")?;
        Some(GetLatestImportResponse { rate_limit: None, latest_import, musicbrainz_id })
    }
}

impl ResponseType for GetLatestImportResponse {
    open spec fn with_rate_limit(
        m: GetLatestImportResponseModel,
        rate_limit: Option<RateLimit>,
    ) -> GetLatestImportResponseModel {
        GetLatestImportResponseModel { rate_limit, ..m }
    }

    fn set_rate_limit(&mut self, rate_limit: Option<RateLimit>) {
        self.rate_limit = rate_limit;
    }
}

/// Response type for
/// [`Client::update_latest_import`](crate::raw::Client::update_latest_import).
#[derive(Debug, Clone, PartialEq, Eq)]
pub struct UpdateLatestImportResponse {
    pub rate_limit: Option<RateLimit>,
    pub status: String,
}

/// The mathematical value of an [`UpdateLatestImportResponse`].
pub struct UpdateLatestImportResponseModel {
    pub rate_limit: Option<RateLimit>,
    pub status: Seq<char>,
}

impl DeepView for UpdateLatestImportResponse {
    type V = UpdateLatestImportResponseModel;

    open spec fn deep_view(&self) -> UpdateLatestImportResponseModel {
        UpdateLatestImportResponseModel {
            rate_limit: self.rate_limit,
            status: self.status.deep_view(),
        }
    }
}

impl FromJson for UpdateLatestImportResponse {
    open spec fn decoded(j: Json) -> Option<UpdateLatestImportResponseModel> {
        match field::<String>(j, "status"@) {
            Some(status) if j is Object => Some(
                UpdateLatestImportResponseModel { rate_limit: None, status },
            ),
            _ => None,
        }
    }

    fn from_json(v: &serde_json::Value) -> (r: Option<UpdateLatestImportResponse>) {
        if !is_object(v) {
            return None;
        }
        let status = get_field::<String>(v, "status")?;
        Some(UpdateLatestImportResponse { rate_limit: None, status })
    }
}

impl ResponseType for UpdateLatestImportResponse {
    open spec fn with_rate_limit(
        m: UpdateLatestImportResponseModel,
        rate_limit: Option<RateLimit>,
    ) -> UpdateLatestImportResponseModel {
        UpdateLatestImportResponseModel { rate_limit, ..m }
    }

    fn set_rate_limit(&mut self, rate_limit: Option<RateLimit>) {
        self.rate_limit = rate_limit;
    }
}

} // verus!
