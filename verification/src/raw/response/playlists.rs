//! Responses of the playlist endpoints.

use vstd::prelude::*;
use crate::codec::{field, get_field, is_object, FromJson};
use crate::json::Json;
use crate::raw::jspf::{Playlist, PlaylistInfo, PlaylistInfoModel, PlaylistModel};
use crate::raw::response::{RateLimit, ResponseType};

verus! {

/// The playlists that the `user/{name}/playlists` endpoint lists, one page of
/// them.
#[derive(Debug, Clone, PartialEq, Eq)]
pub struct UserPlaylistsResponse {
    pub rate_limit: Option<RateLimit>,
    pub count: u64,
    pub offset: u64,
    pub playlist_count: u64,
    pub playlists: Vec<Playlist>,
}

/// The mathematical value of an [`UserPlaylistsResponse`].
pub struct UserPlaylistsResponseModel {
    pub rate_limit: Option<RateLimit>,
    pub count: u64,
    pub offset: u64,
    pub playlist_count: u64,
    pub playlists: Seq<PlaylistModel>,
}

impl DeepView for UserPlaylistsResponse {
    type V = UserPlaylistsResponseModel;

    open spec fn deep_view(&self) -> UserPlaylistsResponseModel {
        UserPlaylistsResponseModel {
            rate_limit: self.rate_limit,
            count: self.count,
            offset: self.offset,
            playlist_count: self.playlist_count,
            playlists: self.playlists.deep_view(),
        }
    }
}

impl FromJson for UserPlaylistsResponse {
    open spec fn decoded(j: Json) -> Option<UserPlaylistsResponseModel> {
        match (
            field::<u64>(j, "count"@),
            field::<u64>(j, "offset"@),
            field::<u64>(j, "playlist_count"@),
            field::<Vec<Playlist>>(j, "playlists"@),
        ) {
            (
                Some(count),
                Some(offset),
                Some(playlist_count),
                Some(playlists),
            ) if j is Object => Some(
                UserPlaylistsResponseModel {
                    rate_limit: None,
                    count,
                    offset,
                    playlist_count,
                    playlists,
                },
            ),
            _ => None,
        }
    }

    fn from_json(v: &serde_json::Value) -> (r: Option<UserPlaylistsResponse>) {
        if !is_object(v) {
            return None;
        }
        let count = get_field::<u64>(v, "count")?;
        let offset = get_field::<u64>(v, "offset")?;
        let playlist_count = get_field::<u64>(v, "playlist_count")?;
        let playlists = get_field::<Vec<Playlist>>(v, "playlists")?;
        Some(UserPlaylistsResponse { rate_limit: None, count, offset, playlist_count, playlists })
    }
}

impl ResponseType for UserPlaylistsResponse {
    open spec fn with_rate_limit(
        m: UserPlaylistsResponseModel,
        rate_limit: Option<RateLimit>,
    ) -> UserPlaylistsResponseModel {
        UserPlaylistsResponseModel { rate_limit, ..m }
    }

    fn set_rate_limit(&mut self, rate_limit: Option<RateLimit>) {
        self.rate_limit = rate_limit;
    }
}

/// The playlists that the `user/{name}/playlists/createdfor` endpoint lists,
/// one page of them.
#[derive(Debug, Clone, PartialEq, Eq)]
pub struct UserPlaylistsCreatedForResponse {
    pub rate_limit: Option<RateLimit>,
    pub count: u64,
    pub offset: u64,
    pub playlist_count: u64,
    pub playlists: Vec<Playlist>,
}

/// The mathematical value of an [`UserPlaylistsCreatedForResponse`].
pub struct UserPlaylistsCreatedForResponseModel {
    pub rate_limit: Option<RateLimit>,
    pub count: u64,
    pub offset: u64,
    pub playlist_count: u64,
    pub playlists: Seq<PlaylistModel>,
}

impl DeepView for UserPlaylistsCreatedForResponse {
    type V = UserPlaylistsCreatedForResponseModel;

    open spec fn deep_view(&self) -> UserPlaylistsCreatedForResponseModel {
        UserPlaylistsCreatedForResponseModel {
            rate_limit: self.rate_limit,
            count: self.count,
            offset: self.offset,
            playlist_count: self.playlist_count,
            playlists: self.playlists.deep_view(),
        }
    }
}

impl FromJson for UserPlaylistsCreatedForResponse {
    open spec fn decoded(j: Json) -> Option<UserPlaylistsCreatedForResponseModel> {
        match (
            field::<u64>(j, "count"@),
            field::<u64>(j, "offset"@),
            field::<u64>(j, "playlist_count"@),
            field::<Vec<Playlist>>(j, "playlists"@),
        ) {
            (
                Some(count),
                Some(offset),
                Some(playlist_count),
                Some(playlists),
            ) if j is Object => Some(
                UserPlaylistsCreatedForResponseModel {
                    rate_limit: None,
                    count,
                    offset,
                    playlist_count,
                    playlists,
                },
            ),
            _ => None,
        }
    }

    fn from_json(v: &serde_json::Value) -> (r: Option<UserPlaylistsCreatedForResponse>) {
        if !is_object(v) {
            return None;
        }
        let count = get_field::<u64>(v, "count")?;
        let offset = get_field::<u64>(v, "offset")?;
        let playlist_count = get_field::<u64>(v, "playlist_count")?;
        let playlists = get_field::<Vec<Playlist>>(v, "playlists")?;
        Some(
            UserPlaylistsCreatedForResponse {
                rate_limit: None,
                count,
                offset,
                playlist_count,
                playlists,
            },
        )
    }
}

impl ResponseType for UserPlaylistsCreatedForResponse {
    open spec fn with_rate_limit(
        m: UserPlaylistsCreatedForResponseModel,
        rate_limit: Option<RateLimit>,
    ) -> UserPlaylistsCreatedForResponseModel {
        UserPlaylistsCreatedForResponseModel { rate_limit, ..m }
    }

    fn set_rate_limit(&mut self, rate_limit: Option<RateLimit>) {
        self.rate_limit = rate_limit;
    }
}

/// The playlists that the `user/{name}/playlists/collaborator` endpoint lists,
/// one page of them.
#[derive(Debug, Clone, PartialEq, Eq)]
pub struct UserPlaylistsCollaboratorResponse {
    pub rate_limit: Option<RateLimit>,
    pub count: u64,
    pub offset: u64,
    pub playlist_count: u64,
    pub playlists: Vec<Playlist>,
}

/// The mathematical value of an [`UserPlaylistsCollaboratorResponse`].
pub struct UserPlaylistsCollaboratorResponseModel {
    pub rate_limit: Option<RateLimit>,
    pub count: u64,
    pub offset: u64,
    pub playlist_count: u64,
    pub playlists: Seq<PlaylistModel>,
}

impl DeepView for UserPlaylistsCollaboratorResponse {
    type V = UserPlaylistsCollaboratorResponseModel;

    open spec fn deep_view(&self) -> UserPlaylistsCollaboratorResponseModel {
        UserPlaylistsCollaboratorResponseModel {
            rate_limit: self.rate_limit,
            count: self.count,
            offset: self.offset,
            playlist_count: self.playlist_count,
            playlists: self.playlists.deep_view(),
        }
    }
}

impl FromJson for UserPlaylistsCollaboratorResponse {
    open spec fn decoded(j: Json) -> Option<UserPlaylistsCollaboratorResponseModel> {
        match (
            field::<u64>(j, "count"@),
            field::<u64>(j, "offset"@),
            field::<u64>(j, "playlist_count"@),
            field::<Vec<Playlist>>(j, "playlists"@),
        ) {
            (
                Some(count),
                Some(offset),
                Some(playlist_count),
                Some(playlists),
            ) if j is Object => Some(
                UserPlaylistsCollaboratorResponseModel {
                    rate_limit: None,
                    count,
                    offset,
                    playlist_count,
                    playlists,
                },
            ),
            _ => None,
        }
    }

    fn from_json(v: &serde_json::Value) -> (r: Option<UserPlaylistsCollaboratorResponse>) {
        if !is_object(v) {
            return None;
        }
        let count = get_field::<u64>(v, "count")?;
        let offset = get_field::<u64>(v, "offset")?;
        let playlist_count = get_field::<u64>(v, "playlist_count")?;
        let playlists = get_field::<Vec<Playlist>>(v, "playlists")?;
        Some(
            UserPlaylistsCollaboratorResponse {
                rate_limit: None,
                count,
                offset,
                playlist_count,
                playlists,
            },
        )
    }
}

impl ResponseType for UserPlaylistsCollaboratorResponse {
    open spec fn with_rate_limit(
        m: UserPlaylistsCollaboratorResponseModel,
        rate_limit: Option<RateLimit>,
    ) -> UserPlaylistsCollaboratorResponseModel {
        UserPlaylistsCollaboratorResponseModel { rate_limit, ..m }
    }

    fn set_rate_limit(&mut self, rate_limit: Option<RateLimit>) {
        self.rate_limit = rate_limit;
    }
}

/// What the `playlist/create` endpoint answers.
#[derive(Debug, Clone, PartialEq, Eq)]
pub struct PlaylistCreateResponse {
    pub rate_limit: Option<RateLimit>,
    pub playlist_mbid: String,
    pub status: String,
}

/// The mathematical value of a [`PlaylistCreateResponse`].
pub struct PlaylistCreateResponseModel {
    pub rate_limit: Option<RateLimit>,
    pub playlist_mbid: Seq<char>,
    pub status: Seq<char>,
}

impl DeepView for PlaylistCreateResponse {
    type V = PlaylistCreateResponseModel;

    open spec fn deep_view(&self) -> PlaylistCreateResponseModel {
        PlaylistCreateResponseModel {
            rate_limit: self.rate_limit,
            playlist_mbid: self.playlist_mbid.deep_view(),
            status: self.status.deep_view(),
        }
    }
}

impl FromJson for PlaylistCreateResponse {
    open spec fn decoded(j: Json) -> Option<PlaylistCreateResponseModel> {
        match (
            field::<String>(j, "playlist_mbid"@),
            field::<String>(j, "status"@),
        ) {
            (Some(playlist_mbid), Some(status)) if j is Object => Some(
                PlaylistCreateResponseModel { rate_limit: None, playlist_mbid, status },
            ),
            _ => None,
        }
    }

    fn from_json(v: &serde_json::Value) -> (r: Option<PlaylistCreateResponse>) {
        if !is_object(v) {
            return None;
        }
        let playlist_mbid = get_field::<String>(v, "playlist_mbid")?;
        let status = get_field::<String>(v, "status")?;
        Some(PlaylistCreateResponse { rate_limit: None, playlist_mbid, status })
    }
}

impl ResponseType for PlaylistCreateResponse {
    open spec fn with_rate_limit(
        m: PlaylistCreateResponseModel,
        rate_limit: Option<RateLimit>,
    ) -> PlaylistCreateResponseModel {
        PlaylistCreateResponseModel { rate_limit, ..m }
    }

    fn set_rate_limit(&mut self, rate_limit: Option<RateLimit>) {
        self.rate_limit = rate_limit;
    }
}

/// What the `playlist/{mbid}` endpoint answers.
#[derive(Debug, Clone, PartialEq, Eq)]
pub struct GetPlaylistResponse {
    pub rate_limit: Option<RateLimit>,
    pub playlist: PlaylistInfo,
}

/// The mathematical value of a [`GetPlaylistResponse`].
pub struct GetPlaylistResponseModel {
    pub rate_limit: Option<RateLimit>,
    pub playlist: PlaylistInfoModel,
}

impl DeepView for GetPlaylistResponse {
    type V = GetPlaylistResponseModel;

    open spec fn deep_view(&self) -> GetPlaylistResponseModel {
        GetPlaylistResponseModel {
            rate_limit: self.rate_limit,
            playlist: self.playlist.deep_view(),
        }
    }
}

impl FromJson for GetPlaylistResponse {
    open spec fn decoded(j: Json) -> Option<GetPlaylistResponseModel> {
        match field::<PlaylistInfo>(j, "playlist"@) {
            Some(playlist) if j is Object => Some(
                GetPlaylistResponseModel { rate_limit: None, playlist },
            ),
            _ => None,
        }
    }

    fn from_json(v: &serde_json::Value) -> (r: Option<GetPlaylistResponse>) {
        if !is_object(v) {
            return None;
        }
        let playlist = get_field::<PlaylistInfo>(v, "playlist")?;
        Some(GetPlaylistResponse { rate_limit: None, playlist })
    }
}

impl ResponseType for GetPlaylistResponse {
    open spec fn with_rate_limit(
        m: GetPlaylistResponseModel,
        rate_limit: Option<RateLimit>,
    ) -> GetPlaylistResponseModel {
        GetPlaylistResponseModel { rate_limit, ..m }
    }

    fn set_rate_limit(&mut self, rate_limit: Option<RateLimit>) {
        self.rate_limit = rate_limit;
    }
}

/// What the `playlist/{mbid}/delete` endpoint answers.
#[derive(Debug, Clone, PartialEq, Eq)]
pub struct PlaylistDeleteResponse {
    pub rate_limit: Option<RateLimit>,
    pub status: String,
}

/// The mathematical value of a [`PlaylistDeleteResponse`].
pub struct PlaylistDeleteResponseModel {
    pub rate_limit: Option<RateLimit>,
    pub status: Seq<char>,
}

impl DeepView for PlaylistDeleteResponse {
    type V = PlaylistDeleteResponseModel;

    open spec fn deep_view(&self) -> PlaylistDeleteResponseModel {
        PlaylistDeleteResponseModel {
            rate_limit: self.rate_limit,
            status: self.status.deep_view(),
        }
    }
}

impl FromJson for PlaylistDeleteResponse {
    open spec fn decoded(j: Json) -> Option<PlaylistDeleteResponseModel> {
        match field::<String>(j, "status"@) {
            Some(status) if j is Object => Some(
                PlaylistDeleteResponseModel { rate_limit: None, status },
            ),
            _ => None,
        }
    }

    fn from_json(v: &serde_json::Value) -> (r: Option<PlaylistDeleteResponse>) {
        if !is_object(v) {
            return None;
        }
        let status = get_field::<String>(v, "status")?;
        Some(PlaylistDeleteResponse { rate_limit: None, status })
    }
}

impl ResponseType for PlaylistDeleteResponse {
    open spec fn with_rate_limit(
        m: PlaylistDeleteResponseModel,
        rate_limit: Option<RateLimit>,
    ) -> PlaylistDeleteResponseModel {
        PlaylistDeleteResponseModel { rate_limit, ..m }
    }

    fn set_rate_limit(&mut self, rate_limit: Option<RateLimit>) {
        self.rate_limit = rate_limit;
    }
}

/// What the `playlist/{mbid}/copy` endpoint answers.
#[derive(Debug, Clone, PartialEq, Eq)]
pub struct PlaylistCopyResponse {
    pub rate_limit: Option<RateLimit>,
    pub playlist_mbid: String,
    pub status: String,
}

/// The mathematical value of a [`PlaylistCopyResponse`].
pub struct PlaylistCopyResponseModel {
    pub rate_limit: Option<RateLimit>,
    pub playlist_mbid: Seq<char>,
    pub status: Seq<char>,
}

impl DeepView for PlaylistCopyResponse {
    type V = PlaylistCopyResponseModel;

    open spec fn deep_view(&self) -> PlaylistCopyResponseModel {
        PlaylistCopyResponseModel {
            rate_limit: self.rate_limit,
            playlist_mbid: self.playlist_mbid.deep_view(),
            status: self.status.deep_view(),
        }
    }
}

impl FromJson for PlaylistCopyResponse {
    open spec fn decoded(j: Json) -> Option<PlaylistCopyResponseModel> {
        match (
            field::<String>(j, "playlist_mbid"@),
            field::<String>(j, "status"@),
        ) {
            (Some(playlist_mbid), Some(status)) if j is Object => Some(
                PlaylistCopyResponseModel { rate_limit: None, playlist_mbid, status },
            ),
            _ => None,
        }
    }

    fn from_json(v: &serde_json::Value) -> (r: Option<PlaylistCopyResponse>) {
        if !is_object(v) {
            return None;
        }
        let playlist_mbid = get_field::<String>(v, "playlist_mbid")?;
        let status = get_field::<String>(v, "status")?;
        Some(PlaylistCopyResponse { rate_limit: None, playlist_mbid, status })
    }
}

impl ResponseType for PlaylistCopyResponse {
    open spec fn with_rate_limit(
        m: PlaylistCopyResponseModel,
        rate_limit: Option<RateLimit>,
    ) -> PlaylistCopyResponseModel {
        PlaylistCopyResponseModel { rate_limit, ..m }
    }

    fn set_rate_limit(&mut self, rate_limit: Option<RateLimit>) {
        self.rate_limit = rate_limit;
    }
}

} // verus!
