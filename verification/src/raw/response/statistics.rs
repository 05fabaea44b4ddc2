//! Responses of the statistics endpoints.
//!
//! These endpoints answer with status 204 and no document when there is no
//! data for the range that was asked for.

use vstd::prelude::*;
use crate::codec::{
    distinct_keys, field, get_field, get_map_field, get_optional_field, is_object,
    lemma_decoded_entries_distinct, map_field, optional_field, FromJson,
};
use crate::json::Json;
use crate::raw::response::{RateLimit, ResponseType};

verus! {

/// Response type for
/// [`Client::stats_user_artists`](crate::raw::Client::stats_user_artists).
#[derive(Debug, Clone, PartialEq, Eq)]
pub struct StatsUserArtistsResponse {
    pub rate_limit: Option<RateLimit>,
    pub payload: StatsUserArtistsPayload,
}

/// The mathematical value of a [`StatsUserArtistsResponse`].
pub struct StatsUserArtistsResponseModel {
    pub rate_limit: Option<RateLimit>,
    pub payload: StatsUserArtistsPayloadModel,
}

impl DeepView for StatsUserArtistsResponse {
    type V = StatsUserArtistsResponseModel;

    open spec fn deep_view(&self) -> StatsUserArtistsResponseModel {
        StatsUserArtistsResponseModel {
            rate_limit: self.rate_limit,
            payload: self.payload.deep_view(),
        }
    }
}

impl FromJson for StatsUserArtistsResponse {
    open spec fn decoded(j: Json) -> Option<StatsUserArtistsResponseModel> {
        match field::<StatsUserArtistsPayload>(j, "payload"@) {
            Some(payload) if j is Object => Some(
                StatsUserArtistsResponseModel { rate_limit: None, payload },
            ),
            _ => None,
        }
    }

    fn from_json(v: &serde_json::Value) -> (r: Option<StatsUserArtistsResponse>) {
        if !is_object(v) {
            return None;
        }
        let payload = get_field::<StatsUserArtistsPayload>(v, "payload")?;
        Some(StatsUserArtistsResponse { rate_limit: None, payload })
    }
}

impl ResponseType for StatsUserArtistsResponse {
    open spec fn with_rate_limit(
        m: StatsUserArtistsResponseModel,
        rate_limit: Option<RateLimit>,
    ) -> StatsUserArtistsResponseModel {
        StatsUserArtistsResponseModel { rate_limit, ..m }
    }

    fn set_rate_limit(&mut self, rate_limit: Option<RateLimit>) {
        self.rate_limit = rate_limit;
    }
}

/// Type of the [`StatsUserArtistsResponse::payload`] field.
#[derive(Debug, Clone, PartialEq, Eq)]
pub struct StatsUserArtistsPayload {
    pub artists: Vec<StatsUserArtistsArtist>,
    pub count: u64,
    pub total_artist_count: u64,
    pub user_id: String,
    pub from_ts: i64,
    pub to_ts: i64,
    pub last_updated: i64,
    pub range: String,
}

/// The mathematical value of a [`StatsUserArtistsPayload`].
pub struct StatsUserArtistsPayloadModel {
    pub artists: Seq<StatsUserArtistsArtistModel>,
    pub count: u64,
    pub total_artist_count: u64,
    pub user_id: Seq<char>,
    pub from_ts: i64,
    pub to_ts: i64,
    pub last_updated: i64,
    pub range: Seq<char>,
}

impl DeepView for StatsUserArtistsPayload {
    type V = StatsUserArtistsPayloadModel;

    open spec fn deep_view(&self) -> StatsUserArtistsPayloadModel {
        StatsUserArtistsPayloadModel {
            artists: self.artists.deep_view(),
            count: self.count,
            total_artist_count: self.total_artist_count,
            user_id: self.user_id.deep_view(),
            from_ts: self.from_ts,
            to_ts: self.to_ts,
            last_updated: self.last_updated,
            range: self.range.deep_view(),
        }
    }
}

impl FromJson for StatsUserArtistsPayload {
    open spec fn decoded(j: Json) -> Option<StatsUserArtistsPayloadModel> {
        match (
            field::<Vec<StatsUserArtistsArtist>>(j, "artists"@),
            field::<u64>(j, "count"@),
            field::<u64>(j, "total_artist_count"@),
            field::<String>(j, "user_id"@),
            field::<i64>(j, "from_ts"@),
            field::<i64>(j, "to_ts"@),
            field::<i64>(j, "last_updated"@),
            field::<String>(j, "range"@),
        ) {
            (
                Some(artists),
                Some(count),
                Some(total_artist_count),
                Some(user_id),
                Some(from_ts),
                Some(to_ts),
                Some(last_updated),
                Some(range),
            ) if j is Object => Some(
                StatsUserArtistsPayloadModel {
                    artists,
                    count,
                    total_artist_count,
                    user_id,
                    from_ts,
                    to_ts,
                    last_updated,
                    range,
                },
            ),
            _ => None,
        }
    }

    fn from_json(v: &serde_json::Value) -> (r: Option<StatsUserArtistsPayload>) {
        if !is_object(v) {
            return None;
        }
        let artists = get_field::<Vec<StatsUserArtistsArtist>>(v, "artists")?;
        let count = get_field::<u64>(v, "count")?;
        let total_artist_count = get_field::<u64>(v, "total_artist_count")?;
        let user_id = get_field::<String>(v, "user_id")?;
        let from_ts = get_field::<i64>(v, "from_ts")?;
        let to_ts = get_field::<i64>(v, "to_ts")?;
        let last_updated = get_field::<i64>(v, "last_updated")?;
        let range = get_field::<String>(v, "range")?;
        Some(
            StatsUserArtistsPayload {
                artists,
                count,
                total_artist_count,
                user_id,
                from_ts,
                to_ts,
                last_updated,
                range,
            },
        )
    }
}

/// Type of the [`StatsUserArtistsPayload::artists`] field.
#[derive(Debug, Clone, PartialEq, Eq)]
pub struct StatsUserArtistsArtist {
    pub artist_mbids: Option<Vec<String>>,
    pub artist_msid: Option<String>,
    pub artist_name: String,
    pub listen_count: u64,
}

/// The mathematical value of a [`StatsUserArtistsArtist`].
pub struct StatsUserArtistsArtistModel {
    pub artist_mbids: Option<Seq<Seq<char>>>,
    pub artist_msid: Option<Seq<char>>,
    pub artist_name: Seq<char>,
    pub listen_count: u64,
}

impl DeepView for StatsUserArtistsArtist {
    type V = StatsUserArtistsArtistModel;

    open spec fn deep_view(&self) -> StatsUserArtistsArtistModel {
        StatsUserArtistsArtistModel {
            artist_mbids: self.artist_mbids.deep_view(),
            artist_msid: self.artist_msid.deep_view(),
            artist_name: self.artist_name.deep_view(),
            listen_count: self.listen_count,
        }
    }
}

impl FromJson for StatsUserArtistsArtist {
    open spec fn decoded(j: Json) -> Option<StatsUserArtistsArtistModel> {
        match (
            optional_field::<Vec<String>>(j, "artist_mbids"@),
            optional_field::<String>(j, "artist_msid"@),
            field::<String>(j, "artist_name"@),
            field::<u64>(j, "listen_count"@),
        ) {
            (
                Some(artist_mbids),
                Some(artist_msid),
                Some(artist_name),
                Some(listen_count),
            ) if j is Object => Some(
                StatsUserArtistsArtistModel {
                    artist_mbids,
                    artist_msid,
                    artist_name,
                    listen_count,
                },
            ),
            _ => None,
        }
    }

    fn from_json(v: &serde_json::Value) -> (r: Option<StatsUserArtistsArtist>) {
        if !is_object(v) {
            return None;
        }
        let artist_mbids = get_optional_field::<Vec<String>>(v, "artist_mbids")?;
        let artist_msid = get_optional_field::<String>(v, "artist_msid")?;
        let artist_name = get_field::<String>(v, "artist_name")?;
        let listen_count = get_field::<u64>(v, "listen_count")?;
        Some(StatsUserArtistsArtist { artist_mbids, artist_msid, artist_name, listen_count })
    }
}

/// Response type for
/// [`Client::stats_user_releases`](crate::raw::Client::stats_user_releases).
#[derive(Debug, Clone, PartialEq, Eq)]
pub struct StatsUserReleasesResponse {
    pub rate_limit: Option<RateLimit>,
    pub payload: StatsUserReleasesPayload,
}

/// The mathematical value of a [`StatsUserReleasesResponse`].
pub struct StatsUserReleasesResponseModel {
    pub rate_limit: Option<RateLimit>,
    pub payload: StatsUserReleasesPayloadModel,
}

impl DeepView for StatsUserReleasesResponse {
    type V = StatsUserReleasesResponseModel;

    open spec fn deep_view(&self) -> StatsUserReleasesResponseModel {
        StatsUserReleasesResponseModel {
            rate_limit: self.rate_limit,
            payload: self.payload.deep_view(),
        }
    }
}

impl FromJson for StatsUserReleasesResponse {
    open spec fn decoded(j: Json) -> Option<StatsUserReleasesResponseModel> {
        match field::<StatsUserReleasesPayload>(j, "payload"@) {
            Some(payload) if j is Object => Some(
                StatsUserReleasesResponseModel { rate_limit: None, payload },
            ),
            _ => None,
        }
    }

    fn from_json(v: &serde_json::Value) -> (r: Option<StatsUserReleasesResponse>) {
        if !is_object(v) {
            return None;
        }
        let payload = get_field::<StatsUserReleasesPayload>(v, "payload")?;
        Some(StatsUserReleasesResponse { rate_limit: None, payload })
    }
}

impl ResponseType for StatsUserReleasesResponse {
    open spec fn with_rate_limit(
        m: StatsUserReleasesResponseModel,
        rate_limit: Option<RateLimit>,
    ) -> StatsUserReleasesResponseModel {
        StatsUserReleasesResponseModel { rate_limit, ..m }
    }

    fn set_rate_limit(&mut self, rate_limit: Option<RateLimit>) {
        self.rate_limit = rate_limit;
    }
}

/// Type of the [`StatsUserReleasesResponse::payload`] field.
#[derive(Debug, Clone, PartialEq, Eq)]
pub struct StatsUserReleasesPayload {
    pub releases: Vec<StatsUserReleasesRelease>,
    pub count: u64,
    pub total_release_count: u64,
    pub user_id: String,
    pub from_ts: i64,
    pub to_ts: i64,
    pub last_updated: i64,
    pub range: String,
}

/// The mathematical value of a [`StatsUserReleasesPayload`].
pub struct StatsUserReleasesPayloadModel {
    pub releases: Seq<StatsUserReleasesReleaseModel>,
    pub count: u64,
    pub total_release_count: u64,
    pub user_id: Seq<char>,
    pub from_ts: i64,
    pub to_ts: i64,
    pub last_updated: i64,
    pub range: Seq<char>,
}

impl DeepView for StatsUserReleasesPayload {
    type V = StatsUserReleasesPayloadModel;

    open spec fn deep_view(&self) -> StatsUserReleasesPayloadModel {
        StatsUserReleasesPayloadModel {
            releases: self.releases.deep_view(),
            count: self.count,
            total_release_count: self.total_release_count,
            user_id: self.user_id.deep_view(),
            from_ts: self.from_ts,
            to_ts: self.to_ts,
            last_updated: self.last_updated,
            range: self.range.deep_view(),
        }
    }
}

impl FromJson for StatsUserReleasesPayload {
    open spec fn decoded(j: Json) -> Option<StatsUserReleasesPayloadModel> {
        match (
            field::<Vec<StatsUserReleasesRelease>>(j, "releases"@),
            field::<u64>(j, "count"@),
            field::<u64>(j, "total_release_count"@),
            field::<String>(j, "user_id"@),
            field::<i64>(j, "from_ts"@),
            field::<i64>(j, "to_ts"@),
            field::<i64>(j, "last_updated"@),
            field::<String>(j, "range"@),
        ) {
            (
                Some(releases),
                Some(count),
                Some(total_release_count),
                Some(user_id),
                Some(from_ts),
                Some(to_ts),
                Some(last_updated),
                Some(range),
            ) if j is Object => Some(
                StatsUserReleasesPayloadModel {
                    releases,
                    count,
                    total_release_count,
                    user_id,
                    from_ts,
                    to_ts,
                    last_updated,
                    range,
                },
            ),
            _ => None,
        }
    }

    fn from_json(v: &serde_json::Value) -> (r: Option<StatsUserReleasesPayload>) {
        if !is_object(v) {
            return None;
        }
        let releases = get_field::<Vec<StatsUserReleasesRelease>>(v, "releases")?;
        let count = get_field::<u64>(v, "count")?;
        let total_release_count = get_field::<u64>(v, "total_release_count")?;
        let user_id = get_field::<String>(v, "user_id")?;
        let from_ts = get_field::<i64>(v, "from_ts")?;
        let to_ts = get_field::<i64>(v, "to_ts")?;
        let last_updated = get_field::<i64>(v, "last_updated")?;
        let range = get_field::<String>(v, "range")?;
        Some(
            StatsUserReleasesPayload {
                releases,
                count,
                total_release_count,
                user_id,
                from_ts,
                to_ts,
                last_updated,
                range,
            },
        )
    }
}

/// Type of the [`StatsUserReleasesPayload::releases`] field.
#[derive(Debug, Clone, PartialEq, Eq)]
pub struct StatsUserReleasesRelease {
    pub artist_mbids: Option<Vec<String>>,
    pub artist_msid: Option<String>,
    pub artist_name: String,
    pub listen_count: u64,
    pub release_mbid: Option<String>,
    pub release_msid: Option<String>,
    pub release_name: String,
}

/// The mathematical value of a [`StatsUserReleasesRelease`].
pub struct StatsUserReleasesReleaseModel {
    pub artist_mbids: Option<Seq<Seq<char>>>,
    pub artist_msid: Option<Seq<char>>,
    pub artist_name: Seq<char>,
    pub listen_count: u64,
    pub release_mbid: Option<Seq<char>>,
    pub release_msid: Option<Seq<char>>,
    pub release_name: Seq<char>,
}

impl DeepView for StatsUserReleasesRelease {
    type V = StatsUserReleasesReleaseModel;

    open spec fn deep_view(&self) -> StatsUserReleasesReleaseModel {
        StatsUserReleasesReleaseModel {
            artist_mbids: self.artist_mbids.deep_view(),
            artist_msid: self.artist_msid.deep_view(),
            artist_name: self.artist_name.deep_view(),
            listen_count: self.listen_count,
            release_mbid: self.release_mbid.deep_view(),
            release_msid: self.release_msid.deep_view(),
            release_name: self.release_name.deep_view(),
        }
    }
}

impl FromJson for StatsUserReleasesRelease {
    open spec fn decoded(j: Json) -> Option<StatsUserReleasesReleaseModel> {
        match (
            optional_field::<Vec<String>>(j, "artist_mbids"@),
            optional_field::<String>(j, "artist_msid"@),
            field::<String>(j, "artist_name"@),
            field::<u64>(j, "listen_count"@),
            optional_field::<String>(j, "release_mbid"@),
            optional_field::<String>(j, "release_msid"@),
            field::<String>(j, "release_name"@),
        ) {
            (
                Some(artist_mbids),
                Some(artist_msid),
                Some(artist_name),
                Some(listen_count),
                Some(release_mbid),
                Some(release_msid),
                Some(release_name),
            ) if j is Object => Some(
                StatsUserReleasesReleaseModel {
                    artist_mbids,
                    artist_msid,
                    artist_name,
                    listen_count,
                    release_mbid,
                    release_msid,
                    release_name,
                },
            ),
            _ => None,
        }
    }

    fn from_json(v: &serde_json::Value) -> (r: Option<StatsUserReleasesRelease>) {
        if !is_object(v) {
            return None;
        }
        let artist_mbids = get_optional_field::<Vec<String>>(v, "artist_mbids")?;
        let artist_msid = get_optional_field::<String>(v, "artist_msid")?;
        let artist_name = get_field::<String>(v, "artist_name")?;
        let listen_count = get_field::<u64>(v, "listen_count")?;
        let release_mbid = get_optional_field::<String>(v, "release_mbid")?;
        let release_msid = get_optional_field::<String>(v, "release_msid")?;
        let release_name = get_field::<String>(v, "release_name")?;
        Some(
            StatsUserReleasesRelease {
                artist_mbids,
                artist_msid,
                artist_name,
                listen_count,
                release_mbid,
                release_msid,
                release_name,
            },
        )
    }
}

/// Response type for [`Client::stats_user_recordings`](crate::raw::Client::stat
/// s_user_recordings).
#[derive(Debug, Clone, PartialEq, Eq)]
pub struct StatsUserRecordingsResponse {
    pub rate_limit: Option<RateLimit>,
    pub payload: StatsUserRecordingsPayload,
}

/// The mathematical value of a [`StatsUserRecordingsResponse`].
pub struct StatsUserRecordingsResponseModel {
    pub rate_limit: Option<RateLimit>,
    pub payload: StatsUserRecordingsPayloadModel,
}

impl DeepView for StatsUserRecordingsResponse {
    type V = StatsUserRecordingsResponseModel;

    open spec fn deep_view(&self) -> StatsUserRecordingsResponseModel {
        StatsUserRecordingsResponseModel {
            rate_limit: self.rate_limit,
            payload: self.payload.deep_view(),
        }
    }
}

impl FromJson for StatsUserRecordingsResponse {
    open spec fn decoded(j: Json) -> Option<StatsUserRecordingsResponseModel> {
        match field::<StatsUserRecordingsPayload>(j, "payload"@) {
            Some(payload) if j is Object => Some(
                StatsUserRecordingsResponseModel { rate_limit: None, payload },
            ),
            _ => None,
        }
    }

    fn from_json(v: &serde_json::Value) -> (r: Option<StatsUserRecordingsResponse>) {
        if !is_object(v) {
            return None;
        }
        let payload = get_field::<StatsUserRecordingsPayload>(v, "payload")?;
        Some(StatsUserRecordingsResponse { rate_limit: None, payload })
    }
}

impl ResponseType for StatsUserRecordingsResponse {
    open spec fn with_rate_limit(
        m: StatsUserRecordingsResponseModel,
        rate_limit: Option<RateLimit>,
    ) -> StatsUserRecordingsResponseModel {
        StatsUserRecordingsResponseModel { rate_limit, ..m }
    }

    fn set_rate_limit(&mut self, rate_limit: Option<RateLimit>) {
        self.rate_limit = rate_limit;
    }
}

/// Type of the [`StatsUserRecordingsResponse::payload`] field.
#[derive(Debug, Clone, PartialEq, Eq)]
pub struct StatsUserRecordingsPayload {
    pub recordings: Vec<StatsUserRecordingsRecording>,
    pub count: u64,
    pub total_recording_count: u64,
    pub user_id: String,
    pub from_ts: i64,
    pub to_ts: i64,
    pub last_updated: i64,
    pub range: String,
}

/// The mathematical value of a [`StatsUserRecordingsPayload`].
pub struct StatsUserRecordingsPayloadModel {
    pub recordings: Seq<StatsUserRecordingsRecordingModel>,
    pub count: u64,
    pub total_recording_count: u64,
    pub user_id: Seq<char>,
    pub from_ts: i64,
    pub to_ts: i64,
    pub last_updated: i64,
    pub range: Seq<char>,
}

impl DeepView for StatsUserRecordingsPayload {
    type V = StatsUserRecordingsPayloadModel;

    open spec fn deep_view(&self) -> StatsUserRecordingsPayloadModel {
        StatsUserRecordingsPayloadModel {
            recordings: self.recordings.deep_view(),
            count: self.count,
            total_recording_count: self.total_recording_count,
            user_id: self.user_id.deep_view(),
            from_ts: self.from_ts,
            to_ts: self.to_ts,
            last_updated: self.last_updated,
            range: self.range.deep_view(),
        }
    }
}

impl FromJson for StatsUserRecordingsPayload {
    open spec fn decoded(j: Json) -> Option<StatsUserRecordingsPayloadModel> {
        match (
            field::<Vec<StatsUserRecordingsRecording>>(j, "recordings"@),
            field::<u64>(j, "count"@),
            field::<u64>(j, "total_recording_count"@),
            field::<String>(j, "user_id"@),
            field::<i64>(j, "from_ts"@),
            field::<i64>(j, "to_ts"@),
            field::<i64>(j, "last_updated"@),
            field::<String>(j, "range"@),
        ) {
            (
                Some(recordings),
                Some(count),
                Some(total_recording_count),
                Some(user_id),
                Some(from_ts),
                Some(to_ts),
                Some(last_updated),
                Some(range),
            ) if j is Object => Some(
                StatsUserRecordingsPayloadModel {
                    recordings,
                    count,
                    total_recording_count,
                    user_id,
                    from_ts,
                    to_ts,
                    last_updated,
                    range,
                },
            ),
            _ => None,
        }
    }

    fn from_json(v: &serde_json::Value) -> (r: Option<StatsUserRecordingsPayload>) {
        if !is_object(v) {
            return None;
        }
        let recordings = get_field::<Vec<StatsUserRecordingsRecording>>(v, "recordings")?;
        let count = get_field::<u64>(v, "count")?;
        let total_recording_count = get_field::<u64>(v, "total_recording_count")?;
        let user_id = get_field::<String>(v, "user_id")?;
        let from_ts = get_field::<i64>(v, "from_ts")?;
        let to_ts = get_field::<i64>(v, "to_ts")?;
        let last_updated = get_field::<i64>(v, "last_updated")?;
        let range = get_field::<String>(v, "range")?;
        Some(
            StatsUserRecordingsPayload {
                recordings,
                count,
                total_recording_count,
                user_id,
                from_ts,
                to_ts,
                last_updated,
                range,
            },
        )
    }
}

/// Type of the [`StatsUserRecordingsPayload::recordings`] field.
#[derive(Debug, Clone, PartialEq, Eq)]
pub struct StatsUserRecordingsRecording {
    pub artist_mbids: Option<Vec<String>>,
    pub artist_msid: Option<String>,
    pub artist_name: String,
    pub listen_count: u64,
    pub recording_mbid: Option<String>,
    pub recording_msid: Option<String>,
    pub release_mbid: Option<String>,
    pub release_msid: Option<String>,
    pub release_name: Option<String>,
    pub track_name: Option<String>,
}

/// The mathematical value of a [`StatsUserRecordingsRecording`].
pub struct StatsUserRecordingsRecordingModel {
    pub artist_mbids: Option<Seq<Seq<char>>>,
    pub artist_msid: Option<Seq<char>>,
    pub artist_name: Seq<char>,
    pub listen_count: u64,
    pub recording_mbid: Option<Seq<char>>,
    pub recording_msid: Option<Seq<char>>,
    pub release_mbid: Option<Seq<char>>,
    pub release_msid: Option<Seq<char>>,
    pub release_name: Option<Seq<char>>,
    pub track_name: Option<Seq<char>>,
}

impl DeepView for StatsUserRecordingsRecording {
    type V = StatsUserRecordingsRecordingModel;

    open spec fn deep_view(&self) -> StatsUserRecordingsRecordingModel {
        StatsUserRecordingsRecordingModel {
            artist_mbids: self.artist_mbids.deep_view(),
            artist_msid: self.artist_msid.deep_view(),
            artist_name: self.artist_name.deep_view(),
            listen_count: self.listen_count,
            recording_mbid: self.recording_mbid.deep_view(),
            recording_msid: self.recording_msid.deep_view(),
            release_mbid: self.release_mbid.deep_view(),
            release_msid: self.release_msid.deep_view(),
            release_name: self.release_name.deep_view(),
            track_name: self.track_name.deep_view(),
        }
    }
}

impl FromJson for StatsUserRecordingsRecording {
    open spec fn decoded(j: Json) -> Option<StatsUserRecordingsRecordingModel> {
        match (
            optional_field::<Vec<String>>(j, "artist_mbids"@),
            optional_field::<String>(j, "artist_msid"@),
            field::<String>(j, "artist_name"@),
            field::<u64>(j, "listen_count"@),
            optional_field::<String>(j, "recording_mbid"@),
            optional_field::<String>(j, "recording_msid"@),
            optional_field::<String>(j, "release_mbid"@),
            optional_field::<String>(j, "release_msid"@),
            optional_field::<String>(j, "release_name"@),
            optional_field::<String>(j, "track_name"@),
        ) {
            (
                Some(artist_mbids),
                Some(artist_msid),
                Some(artist_name),
                Some(listen_count),
                Some(recording_mbid),
                Some(recording_msid),
                Some(release_mbid),
                Some(release_msid),
                Some(release_name),
                Some(track_name),
            ) if j is Object => Some(
                StatsUserRecordingsRecordingModel {
                    artist_mbids,
                    artist_msid,
                    artist_name,
                    listen_count,
                    recording_mbid,
                    recording_msid,
                    release_mbid,
                    release_msid,
                    release_name,
                    track_name,
                },
            ),
            _ => None,
        }
    }

    fn from_json(v: &serde_json::Value) -> (r: Option<StatsUserRecordingsRecording>) {
        if !is_object(v) {
            return None;
        }
        let artist_mbids = get_optional_field::<Vec<String>>(v, "artist_mbids")?;
        let artist_msid = get_optional_field::<String>(v, "artist_msid")?;
        let artist_name = get_field::<String>(v, "artist_name")?;
        let listen_count = get_field::<u64>(v, "listen_count")?;
        let recording_mbid = get_optional_field::<String>(v, "recording_mbid")?;
        let recording_msid = get_optional_field::<String>(v, "recording_msid")?;
        let release_mbid = get_optional_field::<String>(v, "release_mbid")?;
        let release_msid = get_optional_field::<String>(v, "release_msid")?;
        let release_name = get_optional_field::<String>(v, "release_name")?;
        let track_name = get_optional_field::<String>(v, "track_name")?;
        Some(
            StatsUserRecordingsRecording {
                artist_mbids,
                artist_msid,
                artist_name,
                listen_count,
                recording_mbid,
                recording_msid,
                release_mbid,
                release_msid,
                release_name,
                track_name,
            },
        )
    }
}

/// Response type for [`Client::stats_user_listening_activity`](crate::raw::Clie
/// nt::stats_user_listening_activity).
#[derive(Debug, Clone, PartialEq, Eq)]
pub struct StatsUserListeningActivityResponse {
    pub rate_limit: Option<RateLimit>,
    pub payload: StatsUserListeningActivityPayload,
}

/// The mathematical value of a [`StatsUserListeningActivityResponse`].
pub struct StatsUserListeningActivityResponseModel {
    pub rate_limit: Option<RateLimit>,
    pub payload: StatsUserListeningActivityPayloadModel,
}

impl DeepView for StatsUserListeningActivityResponse {
    type V = StatsUserListeningActivityResponseModel;

    open spec fn deep_view(&self) -> StatsUserListeningActivityResponseModel {
        StatsUserListeningActivityResponseModel {
            rate_limit: self.rate_limit,
            payload: self.payload.deep_view(),
        }
    }
}

impl FromJson for StatsUserListeningActivityResponse {
    open spec fn decoded(j: Json) -> Option<StatsUserListeningActivityResponseModel> {
        match field::<StatsUserListeningActivityPayload>(j, "payload"@) {
            Some(payload) if j is Object => Some(
                StatsUserListeningActivityResponseModel { rate_limit: None, payload },
            ),
            _ => None,
        }
    }

    fn from_json(v: &serde_json::Value) -> (r: Option<StatsUserListeningActivityResponse>) {
        if !is_object(v) {
            return None;
        }
        let payload = get_field::<StatsUserListeningActivityPayload>(v, "payload")?;
        Some(StatsUserListeningActivityResponse { rate_limit: None, payload })
    }
}

impl ResponseType for StatsUserListeningActivityResponse {
    open spec fn with_rate_limit(
        m: StatsUserListeningActivityResponseModel,
        rate_limit: Option<RateLimit>,
    ) -> StatsUserListeningActivityResponseModel {
        StatsUserListeningActivityResponseModel { rate_limit, ..m }
    }

    fn set_rate_limit(&mut self, rate_limit: Option<RateLimit>) {
        self.rate_limit = rate_limit;
    }
}

/// Type of the [`StatsUserListeningActivityResponse::payload`] field.
#[derive(Debug, Clone, PartialEq, Eq)]
pub struct StatsUserListeningActivityPayload {
    pub user_id: String,
    pub listening_activity: Vec<StatsUserListeningActivityListeningActivity>,
    pub from_ts: i64,
    pub to_ts: i64,
    pub last_updated: i64,
}

/// The mathematical value of a [`StatsUserListeningActivityPayload`].
pub struct StatsUserListeningActivityPayloadModel {
    pub user_id: Seq<char>,
    pub listening_activity: Seq<StatsUserListeningActivityListeningActivityModel>,
    pub from_ts: i64,
    pub to_ts: i64,
    pub last_updated: i64,
}

impl DeepView for StatsUserListeningActivityPayload {
    type V = StatsUserListeningActivityPayloadModel;

    open spec fn deep_view(&self) -> StatsUserListeningActivityPayloadModel {
        StatsUserListeningActivityPayloadModel {
            user_id: self.user_id.deep_view(),
            listening_activity: self.listening_activity.deep_view(),
            from_ts: self.from_ts,
            to_ts: self.to_ts,
            last_updated: self.last_updated,
        }
    }
}

impl FromJson for StatsUserListeningActivityPayload {
    open spec fn decoded(j: Json) -> Option<StatsUserListeningActivityPayloadModel> {
        match (
            field::<String>(j, "user_id"@),
            field::<Vec<StatsUserListeningActivityListeningActivity>>(j, "listening_activity"@),
            field::<i64>(j, "from_ts"@),
            field::<i64>(j, "to_ts"@),
            field::<i64>(j, "last_updated"@),
        ) {
            (
                Some(user_id),
                Some(listening_activity),
                Some(from_ts),
                Some(to_ts),
                Some(last_updated),
            ) if j is Object => Some(
                StatsUserListeningActivityPayloadModel {
                    user_id,
                    listening_activity,
                    from_ts,
                    to_ts,
                    last_updated,
                },
            ),
            _ => None,
        }
    }

    fn from_json(v: &serde_json::Value) -> (r: Option<StatsUserListeningActivityPayload>) {
        if !is_object(v) {
            return None;
        }
        let user_id = get_field::<String>(v, "user_id")?;
        let listening_activity = get_field::<Vec<StatsUserListeningActivityListeningActivity>>(
            v,
            "listening_activity",
        )?;
        let from_ts = get_field::<i64>(v, "from_ts")?;
        let to_ts = get_field::<i64>(v, "to_ts")?;
        let last_updated = get_field::<i64>(v, "last_updated")?;
        Some(
            StatsUserListeningActivityPayload {
                user_id,
                listening_activity,
                from_ts,
                to_ts,
                last_updated,
            },
        )
    }
}

/// Type of the [`StatsUserListeningActivityPayload::listening_activity`] field.
#[derive(Debug, Clone, PartialEq, Eq)]
pub struct StatsUserListeningActivityListeningActivity {
    pub listen_count: u64,
    pub from_ts: i64,
    pub to_ts: i64,
    pub time_range: String,
}

/// The mathematical value of a [`StatsUserListeningActivityListeningActivity`].
pub struct StatsUserListeningActivityListeningActivityModel {
    pub listen_count: u64,
    pub from_ts: i64,
    pub to_ts: i64,
    pub time_range: Seq<char>,
}

impl DeepView for StatsUserListeningActivityListeningActivity {
    type V = StatsUserListeningActivityListeningActivityModel;

    open spec fn deep_view(&self) -> StatsUserListeningActivityListeningActivityModel {
        StatsUserListeningActivityListeningActivityModel {
            listen_count: self.listen_count,
            from_ts: self.from_ts,
            to_ts: self.to_ts,
            time_range: self.time_range.deep_view(),
        }
    }
}

impl FromJson for StatsUserListeningActivityListeningActivity {
    open spec fn decoded(j: Json) -> Option<StatsUserListeningActivityListeningActivityModel> {
        match (
            field::<u64>(j, "listen_count"@),
            field::<i64>(j, "from_ts"@),
            field::<i64>(j, "to_ts"@),
            field::<String>(j, "time_range"@),
        ) {
            (
                Some(listen_count),
                Some(from_ts),
                Some(to_ts),
                Some(time_range),
            ) if j is Object => Some(
                StatsUserListeningActivityListeningActivityModel {
                    listen_count,
                    from_ts,
                    to_ts,
                    time_range,
                },
            ),
            _ => None,
        }
    }

    fn from_json(v: &serde_json::Value) -> (r: Option<
        StatsUserListeningActivityListeningActivity,
    >) {
        if !is_object(v) {
            return None;
        }
        let listen_count = get_field::<u64>(v, "listen_count")?;
        let from_ts = get_field::<i64>(v, "from_ts")?;
        let to_ts = get_field::<i64>(v, "to_ts")?;
        let time_range = get_field::<String>(v, "time_range")?;
        Some(
            StatsUserListeningActivityListeningActivity {
                listen_count,
                from_ts,
                to_ts,
                time_range,
            },
        )
    }
}

/// Response type for [`Client::stats_user_daily_activity`](crate::raw::Client::
/// stats_user_daily_activity).
#[derive(Debug, Clone, PartialEq, Eq)]
pub struct StatsUserDailyActivityResponse {
    pub rate_limit: Option<RateLimit>,
    pub payload: StatsUserDailyActivityPayload,
}

/// The mathematical value of a [`StatsUserDailyActivityResponse`].
pub struct StatsUserDailyActivityResponseModel {
    pub rate_limit: Option<RateLimit>,
    pub payload: StatsUserDailyActivityPayloadModel,
}

impl DeepView for StatsUserDailyActivityResponse {
    type V = StatsUserDailyActivityResponseModel;

    open spec fn deep_view(&self) -> StatsUserDailyActivityResponseModel {
        StatsUserDailyActivityResponseModel {
            rate_limit: self.rate_limit,
            payload: self.payload.deep_view(),
        }
    }
}

impl FromJson for StatsUserDailyActivityResponse {
    open spec fn decoded(j: Json) -> Option<StatsUserDailyActivityResponseModel> {
        match field::<StatsUserDailyActivityPayload>(j, "payload"@) {
            Some(payload) if j is Object => Some(
                StatsUserDailyActivityResponseModel { rate_limit: None, payload },
            ),
            _ => None,
        }
    }

    fn from_json(v: &serde_json::Value) -> (r: Option<StatsUserDailyActivityResponse>) {
        if !is_object(v) {
            return None;
        }
        let payload = get_field::<StatsUserDailyActivityPayload>(v, "payload")?;
        Some(StatsUserDailyActivityResponse { rate_limit: None, payload })
    }
}

impl ResponseType for StatsUserDailyActivityResponse {
    open spec fn with_rate_limit(
        m: StatsUserDailyActivityResponseModel,
        rate_limit: Option<RateLimit>,
    ) -> StatsUserDailyActivityResponseModel {
        StatsUserDailyActivityResponseModel { rate_limit, ..m }
    }

    fn set_rate_limit(&mut self, rate_limit: Option<RateLimit>) {
        self.rate_limit = rate_limit;
    }
}

/// Type of the [`StatsUserDailyActivityResponse::payload`] field.
#[derive(Debug, Clone, PartialEq, Eq)]
pub struct StatsUserDailyActivityPayload {
    pub user_id: String,
    pub daily_activity: StatsUserDailyActivityDailyActivity,
    pub from_ts: i64,
    pub to_ts: i64,
    pub last_updated: i64,
    pub stats_range: String,
}

/// The mathematical value of a [`StatsUserDailyActivityPayload`].
pub struct StatsUserDailyActivityPayloadModel {
    pub user_id: Seq<char>,
    pub daily_activity: StatsUserDailyActivityDailyActivityModel,
    pub from_ts: i64,
    pub to_ts: i64,
    pub last_updated: i64,
    pub stats_range: Seq<char>,
}

impl DeepView for StatsUserDailyActivityPayload {
    type V = StatsUserDailyActivityPayloadModel;

    open spec fn deep_view(&self) -> StatsUserDailyActivityPayloadModel {
        StatsUserDailyActivityPayloadModel {
            user_id: self.user_id.deep_view(),
            daily_activity: self.daily_activity.deep_view(),
            from_ts: self.from_ts,
            to_ts: self.to_ts,
            last_updated: self.last_updated,
            stats_range: self.stats_range.deep_view(),
        }
    }
}

impl FromJson for StatsUserDailyActivityPayload {
    open spec fn decoded(j: Json) -> Option<StatsUserDailyActivityPayloadModel> {
        match (
            field::<String>(j, "user_id"@),
            field::<StatsUserDailyActivityDailyActivity>(j, "daily_activity"@),
            field::<i64>(j, "from_ts"@),
            field::<i64>(j, "to_ts"@),
            field::<i64>(j, "last_updated"@),
            field::<String>(j, "stats_range"@),
        ) {
            (
                Some(user_id),
                Some(daily_activity),
                Some(from_ts),
                Some(to_ts),
                Some(last_updated),
                Some(stats_range),
            ) if j is Object => Some(
                StatsUserDailyActivityPayloadModel {
                    user_id,
                    daily_activity,
                    from_ts,
                    to_ts,
                    last_updated,
                    stats_range,
                },
            ),
            _ => None,
        }
    }

    fn from_json(v: &serde_json::Value) -> (r: Option<StatsUserDailyActivityPayload>) {
        if !is_object(v) {
            return None;
        }
        let user_id = get_field::<String>(v, "user_id")?;
        let daily_activity = get_field::<StatsUserDailyActivityDailyActivity>(v, "daily_activity")?;
        let from_ts = get_field::<i64>(v, "from_ts")?;
        let to_ts = get_field::<i64>(v, "to_ts")?;
        let last_updated = get_field::<i64>(v, "last_updated")?;
        let stats_range = get_field::<String>(v, "stats_range")?;
        Some(
            StatsUserDailyActivityPayload {
                user_id,
                daily_activity,
                from_ts,
                to_ts,
                last_updated,
                stats_range,
            },
        )
    }
}

/// Type of the [`StatsUserDailyActivityPayload::daily_activity`] field.
#[derive(Debug, Clone, PartialEq, Eq)]
pub struct StatsUserDailyActivityDailyActivity {
    /// The hours of each day that has any, keyed by the name of the day. The
    /// days come in ascending order of their names, so no day comes twice.
    pub days: Vec<(String, Vec<StatsUserDailyActivityHour>)>,
}

/// The mathematical value of a [`StatsUserDailyActivityDailyActivity`].
pub struct StatsUserDailyActivityDailyActivityModel {
    pub days: Seq<(Seq<char>, Seq<StatsUserDailyActivityHourModel>)>,
}

impl DeepView for StatsUserDailyActivityDailyActivity {
    type V = StatsUserDailyActivityDailyActivityModel;

    open spec fn deep_view(&self) -> StatsUserDailyActivityDailyActivityModel {
        StatsUserDailyActivityDailyActivityModel {
            days: self.days.deep_view(),
        }
    }
}

impl FromJson for StatsUserDailyActivityDailyActivity {
    open spec fn decoded(j: Json) -> Option<StatsUserDailyActivityDailyActivityModel> {
        match map_field::<Vec<StatsUserDailyActivityHour>>(j, "days"@) {
            Some(days) if j is Object => Some(StatsUserDailyActivityDailyActivityModel { days }),
            _ => None,
        }
    }

    fn from_json(v: &serde_json::Value) -> (r: Option<StatsUserDailyActivityDailyActivity>) {
        if !is_object(v) {
            return None;
        }
        let days = get_map_field::<Vec<StatsUserDailyActivityHour>>(v, "days")?;
        Some(StatsUserDailyActivityDailyActivity { days })
    }
}

/// Type of the [`StatsUserDailyActivityDailyActivity::days`] field.
#[derive(Debug, Clone, PartialEq, Eq)]
pub struct StatsUserDailyActivityHour {
    pub hour: u8,
    pub listen_count: u64,
}

/// The mathematical value of a [`StatsUserDailyActivityHour`].
pub struct StatsUserDailyActivityHourModel {
    pub hour: u8,
    pub listen_count: u64,
}

impl DeepView for StatsUserDailyActivityHour {
    type V = StatsUserDailyActivityHourModel;

    open spec fn deep_view(&self) -> StatsUserDailyActivityHourModel {
        StatsUserDailyActivityHourModel {
            hour: self.hour,
            listen_count: self.listen_count,
        }
    }
}

impl FromJson for StatsUserDailyActivityHour {
    open spec fn decoded(j: Json) -> Option<StatsUserDailyActivityHourModel> {
        match (
            field::<u8>(j, "hour"@),
            field::<u64>(j, "listen_count"@),
        ) {
            (Some(hour), Some(listen_count)) if j is Object => Some(
                StatsUserDailyActivityHourModel { hour, listen_count },
            ),
            _ => None,
        }
    }

    fn from_json(v: &serde_json::Value) -> (r: Option<StatsUserDailyActivityHour>) {
        if !is_object(v) {
            return None;
        }
        let hour = get_field::<u8>(v, "hour")?;
        let listen_count = get_field::<u64>(v, "listen_count")?;
        Some(StatsUserDailyActivityHour { hour, listen_count })
    }
}

impl StatsUserDailyActivityDailyActivityModel {
    /// Whether no day comes twice.
    pub open spec fn well_formed(self) -> bool {
        distinct_keys(self.days)
    }
}

/// The daily activity that a document denotes names no day twice, whether it
/// is read on its own or as part of a response.
pub proof fn lemma_daily_activity_well_formed(j: Json)
    ensures
        StatsUserDailyActivityDailyActivity::decoded(j) matches Some(m) ==> m.well_formed(),
        StatsUserDailyActivityResponse::decoded(j) matches Some(m)
            ==> m.payload.daily_activity.well_formed(),
{
    lemma_days_distinct(j);
    match j.member("payload"@) {
        Some(payload) => match payload.member("daily_activity"@) {
            Some(activity) => lemma_days_distinct(activity),
            None => {},
        },
        None => {},
    }
}

proof fn lemma_days_distinct(j: Json)
    ensures
        StatsUserDailyActivityDailyActivity::decoded(j) matches Some(m) ==> m.well_formed(),
{
    match j.member("days"@) {
        Some(Json::Object(entries)) => {
            lemma_decoded_entries_distinct::<Vec<StatsUserDailyActivityHour>>(entries);
        },
        _ => {},
    }
}

/// Response type for [`Client::stats_user_artist_map`](crate::raw::Client::stat
/// s_user_artist_map).
#[derive(Debug, Clone, PartialEq, Eq)]
pub struct StatsUserArtistMapResponse {
    pub rate_limit: Option<RateLimit>,
    pub payload: StatsUserArtistMapPayload,
}

/// The mathematical value of a [`StatsUserArtistMapResponse`].
pub struct StatsUserArtistMapResponseModel {
    pub rate_limit: Option<RateLimit>,
    pub payload: StatsUserArtistMapPayloadModel,
}

impl DeepView for StatsUserArtistMapResponse {
    type V = StatsUserArtistMapResponseModel;

    open spec fn deep_view(&self) -> StatsUserArtistMapResponseModel {
        StatsUserArtistMapResponseModel {
            rate_limit: self.rate_limit,
            payload: self.payload.deep_view(),
        }
    }
}

impl FromJson for StatsUserArtistMapResponse {
    open spec fn decoded(j: Json) -> Option<StatsUserArtistMapResponseModel> {
        match field::<StatsUserArtistMapPayload>(j, "payload"@) {
            Some(payload) if j is Object => Some(
                StatsUserArtistMapResponseModel { rate_limit: None, payload },
            ),
            _ => None,
        }
    }

    fn from_json(v: &serde_json::Value) -> (r: Option<StatsUserArtistMapResponse>) {
        if !is_object(v) {
            return None;
        }
        let payload = get_field::<StatsUserArtistMapPayload>(v, "payload")?;
        Some(StatsUserArtistMapResponse { rate_limit: None, payload })
    }
}

impl ResponseType for StatsUserArtistMapResponse {
    open spec fn with_rate_limit(
        m: StatsUserArtistMapResponseModel,
        rate_limit: Option<RateLimit>,
    ) -> StatsUserArtistMapResponseModel {
        StatsUserArtistMapResponseModel { rate_limit, ..m }
    }

    fn set_rate_limit(&mut self, rate_limit: Option<RateLimit>) {
        self.rate_limit = rate_limit;
    }
}

/// Type of the [`StatsUserArtistMapResponse::payload`] field.
#[derive(Debug, Clone, PartialEq, Eq)]
pub struct StatsUserArtistMapPayload {
    pub artist_map: Vec<StatsUserArtistMapCountry>,
    pub user_id: String,
    pub from_ts: i64,
    pub to_ts: i64,
    pub last_updated: i64,
    pub range: String,
}

/// The mathematical value of a [`StatsUserArtistMapPayload`].
pub struct StatsUserArtistMapPayloadModel {
    pub artist_map: Seq<StatsUserArtistMapCountryModel>,
    pub user_id: Seq<char>,
    pub from_ts: i64,
    pub to_ts: i64,
    pub last_updated: i64,
    pub range: Seq<char>,
}

impl DeepView for StatsUserArtistMapPayload {
    type V = StatsUserArtistMapPayloadModel;

    open spec fn deep_view(&self) -> StatsUserArtistMapPayloadModel {
        StatsUserArtistMapPayloadModel {
            artist_map: self.artist_map.deep_view(),
            user_id: self.user_id.deep_view(),
            from_ts: self.from_ts,
            to_ts: self.to_ts,
            last_updated: self.last_updated,
            range: self.range.deep_view(),
        }
    }
}

impl FromJson for StatsUserArtistMapPayload {
    open spec fn decoded(j: Json) -> Option<StatsUserArtistMapPayloadModel> {
        match (
            field::<Vec<StatsUserArtistMapCountry>>(j, "artist_map"@),
            field::<String>(j, "user_id"@),
            field::<i64>(j, "from_ts"@),
            field::<i64>(j, "to_ts"@),
            field::<i64>(j, "last_updated"@),
            field::<String>(j, "range"@),
        ) {
            (
                Some(artist_map),
                Some(user_id),
                Some(from_ts),
                Some(to_ts),
                Some(last_updated),
                Some(range),
            ) if j is Object => Some(
                StatsUserArtistMapPayloadModel {
                    artist_map,
                    user_id,
                    from_ts,
                    to_ts,
                    last_updated,
                    range,
                },
            ),
            _ => None,
        }
    }

    fn from_json(v: &serde_json::Value) -> (r: Option<StatsUserArtistMapPayload>) {
        if !is_object(v) {
            return None;
        }
        let artist_map = get_field::<Vec<StatsUserArtistMapCountry>>(v, "artist_map")?;
        let user_id = get_field::<String>(v, "user_id")?;
        let from_ts = get_field::<i64>(v, "from_ts")?;
        let to_ts = get_field::<i64>(v, "to_ts")?;
        let last_updated = get_field::<i64>(v, "last_updated")?;
        let range = get_field::<String>(v, "range")?;
        Some(StatsUserArtistMapPayload { artist_map, user_id, from_ts, to_ts, last_updated, range })
    }
}

/// Type of the [`StatsUserArtistMapPayload::artist_map`] field.
#[derive(Debug, Clone, PartialEq, Eq)]
pub struct StatsUserArtistMapCountry {
    pub country: String,
    pub artist_count: u64,
}

/// The mathematical value of a [`StatsUserArtistMapCountry`].
pub struct StatsUserArtistMapCountryModel {
    pub country: Seq<char>,
    pub artist_count: u64,
}

impl DeepView for StatsUserArtistMapCountry {
    type V = StatsUserArtistMapCountryModel;

    open spec fn deep_view(&self) -> StatsUserArtistMapCountryModel {
        StatsUserArtistMapCountryModel {
            country: self.country.deep_view(),
            artist_count: self.artist_count,
        }
    }
}

impl FromJson for StatsUserArtistMapCountry {
    open spec fn decoded(j: Json) -> Option<StatsUserArtistMapCountryModel> {
        match (
            field::<String>(j, "country"@),
            field::<u64>(j, "artist_count"@),
        ) {
            (Some(country), Some(artist_count)) if j is Object => Some(
                StatsUserArtistMapCountryModel { country, artist_count },
            ),
            _ => None,
        }
    }

    fn from_json(v: &serde_json::Value) -> (r: Option<StatsUserArtistMapCountry>) {
        if !is_object(v) {
            return None;
        }
        let country = get_field::<String>(v, "country")?;
        let artist_count = get_field::<u64>(v, "artist_count")?;
        Some(StatsUserArtistMapCountry { country, artist_count })
    }
}

/// Response type for [`Client::stats_release_group_listeners`](crate::raw::Clie
/// nt::stats_release_group_listeners).
#[derive(Debug, Clone, PartialEq, Eq)]
pub struct StatsReleaseGroupListenersResponse {
    pub rate_limit: Option<RateLimit>,
    pub payload: StatsReleaseGroupListenersPayload,
}

/// The mathematical value of a [`StatsReleaseGroupListenersResponse`].
pub struct StatsReleaseGroupListenersResponseModel {
    pub rate_limit: Option<RateLimit>,
    pub payload: StatsReleaseGroupListenersPayloadModel,
}

impl DeepView for StatsReleaseGroupListenersResponse {
    type V = StatsReleaseGroupListenersResponseModel;

    open spec fn deep_view(&self) -> StatsReleaseGroupListenersResponseModel {
        StatsReleaseGroupListenersResponseModel {
            rate_limit: self.rate_limit,
            payload: self.payload.deep_view(),
        }
    }
}

impl FromJson for StatsReleaseGroupListenersResponse {
    open spec fn decoded(j: Json) -> Option<StatsReleaseGroupListenersResponseModel> {
        match field::<StatsReleaseGroupListenersPayload>(j, "payload"@) {
            Some(payload) if j is Object => Some(
                StatsReleaseGroupListenersResponseModel { rate_limit: None, payload },
            ),
            _ => None,
        }
    }

    fn from_json(v: &serde_json::Value) -> (r: Option<StatsReleaseGroupListenersResponse>) {
        if !is_object(v) {
            return None;
        }
        let payload = get_field::<StatsReleaseGroupListenersPayload>(v, "payload")?;
        Some(StatsReleaseGroupListenersResponse { rate_limit: None, payload })
    }
}

impl ResponseType for StatsReleaseGroupListenersResponse {
    open spec fn with_rate_limit(
        m: StatsReleaseGroupListenersResponseModel,
        rate_limit: Option<RateLimit>,
    ) -> StatsReleaseGroupListenersResponseModel {
        StatsReleaseGroupListenersResponseModel { rate_limit, ..m }
    }

    fn set_rate_limit(&mut self, rate_limit: Option<RateLimit>) {
        self.rate_limit = rate_limit;
    }
}

/// Type of the [`StatsReleaseGroupListenersResponse::payload`] field.
#[derive(Debug, Clone, PartialEq, Eq)]
pub struct StatsReleaseGroupListenersPayload {
    pub artist_mbids: Vec<String>,
    pub artist_name: String,
    pub caa_id: Option<i64>,
    pub caa_release_mbid: Option<String>,
    pub from_ts: i64,
    pub last_updated: i64,
    pub listeners: Vec<StatsReleaseGroupListenersListeners>,
    pub release_group_mbid: String,
    pub release_group_name: String,
    pub stats_range: String,
    pub to_ts: i64,
    pub total_listen_count: i64,
}

/// The mathematical value of a [`StatsReleaseGroupListenersPayload`].
pub struct StatsReleaseGroupListenersPayloadModel {
    pub artist_mbids: Seq<Seq<char>>,
    pub artist_name: Seq<char>,
    pub caa_id: Option<i64>,
    pub caa_release_mbid: Option<Seq<char>>,
    pub from_ts: i64,
    pub last_updated: i64,
    pub listeners: Seq<StatsReleaseGroupListenersListenersModel>,
    pub release_group_mbid: Seq<char>,
    pub release_group_name: Seq<char>,
    pub stats_range: Seq<char>,
    pub to_ts: i64,
    pub total_listen_count: i64,
}

impl DeepView for StatsReleaseGroupListenersPayload {
    type V = StatsReleaseGroupListenersPayloadModel;

    open spec fn deep_view(&self) -> StatsReleaseGroupListenersPayloadModel {
        StatsReleaseGroupListenersPayloadModel {
            artist_mbids: self.artist_mbids.deep_view(),
            artist_name: self.artist_name.deep_view(),
            caa_id: self.caa_id.deep_view(),
            caa_release_mbid: self.caa_release_mbid.deep_view(),
            from_ts: self.from_ts,
            last_updated: self.last_updated,
            listeners: self.listeners.deep_view(),
            release_group_mbid: self.release_group_mbid.deep_view(),
            release_group_name: self.release_group_name.deep_view(),
            stats_range: self.stats_range.deep_view(),
            to_ts: self.to_ts,
            total_listen_count: self.total_listen_count,
        }
    }
}

impl FromJson for StatsReleaseGroupListenersPayload {
    open spec fn decoded(j: Json) -> Option<StatsReleaseGroupListenersPayloadModel> {
        match (
            field::<Vec<String>>(j, "artist_mbids"@),
            field::<String>(j, "artist_name"@),
            optional_field::<i64>(j, "caa_id"@),
            optional_field::<String>(j, "caa_release_mbid"@),
            field::<i64>(j, "from_ts"@),
            field::<i64>(j, "last_updated"@),
            field::<Vec<StatsReleaseGroupListenersListeners>>(j, "listeners"@),
            field::<String>(j, "release_group_mbid"@),
            field::<String>(j, "release_group_name"@),
            field::<String>(j, "stats_range"@),
            field::<i64>(j, "to_ts"@),
            field::<i64>(j, "total_listen_count"@),
        ) {
            (
                Some(artist_mbids),
                Some(artist_name),
                Some(caa_id),
                Some(caa_release_mbid),
                Some(from_ts),
                Some(last_updated),
                Some(listeners),
                Some(release_group_mbid),
                Some(release_group_name),
                Some(stats_range),
                Some(to_ts),
                Some(total_listen_count),
            ) if j is Object => Some(
                StatsReleaseGroupListenersPayloadModel {
                    artist_mbids,
                    artist_name,
                    caa_id,
                    caa_release_mbid,
                    from_ts,
                    last_updated,
                    listeners,
                    release_group_mbid,
                    release_group_name,
                    stats_range,
                    to_ts,
                    total_listen_count,
                },
            ),
            _ => None,
        }
    }

    fn from_json(v: &serde_json::Value) -> (r: Option<StatsReleaseGroupListenersPayload>) {
        if !is_object(v) {
            return None;
        }
        let artist_mbids = get_field::<Vec<String>>(v, "artist_mbids")?;
        let artist_name = get_field::<String>(v, "artist_name")?;
        let caa_id = get_optional_field::<i64>(v, "caa_id")?;
        let caa_release_mbid = get_optional_field::<String>(v, "caa_release_mbid")?;
        let from_ts = get_field::<i64>(v, "from_ts")?;
        let last_updated = get_field::<i64>(v, "last_updated")?;
        let listeners = get_field::<Vec<StatsReleaseGroupListenersListeners>>(v, "listeners")?;
        let release_group_mbid = get_field::<String>(v, "release_group_mbid")?;
        let release_group_name = get_field::<String>(v, "release_group_name")?;
        let stats_range = get_field::<String>(v, "stats_range")?;
        let to_ts = get_field::<i64>(v, "to_ts")?;
        let total_listen_count = get_field::<i64>(v, "total_listen_count")?;
        Some(
            StatsReleaseGroupListenersPayload {
                artist_mbids,
                artist_name,
                caa_id,
                caa_release_mbid,
                from_ts,
                last_updated,
                listeners,
                release_group_mbid,
                release_group_name,
                stats_range,
                to_ts,
                total_listen_count,
            },
        )
    }
}

/// Type of the [`StatsReleaseGroupListenersPayload::listeners`] field.
#[derive(Debug, Clone, PartialEq, Eq)]
pub struct StatsReleaseGroupListenersListeners {
    pub listen_count: u64,
    pub username_name: String,
}

/// The mathematical value of a [`StatsReleaseGroupListenersListeners`].
pub struct StatsReleaseGroupListenersListenersModel {
    pub listen_count: u64,
    pub username_name: Seq<char>,
}

impl DeepView for StatsReleaseGroupListenersListeners {
    type V = StatsReleaseGroupListenersListenersModel;

    open spec fn deep_view(&self) -> StatsReleaseGroupListenersListenersModel {
        StatsReleaseGroupListenersListenersModel {
            listen_count: self.listen_count,
            username_name: self.username_name.deep_view(),
        }
    }
}

impl FromJson for StatsReleaseGroupListenersListeners {
    open spec fn decoded(j: Json) -> Option<StatsReleaseGroupListenersListenersModel> {
        match (
            field::<u64>(j, "listen_count"@),
            field::<String>(j, "username_name"@),
        ) {
            (Some(listen_count), Some(username_name)) if j is Object => Some(
                StatsReleaseGroupListenersListenersModel { listen_count, username_name },
            ),
            _ => None,
        }
    }

    fn from_json(v: &serde_json::Value) -> (r: Option<StatsReleaseGroupListenersListeners>) {
        if !is_object(v) {
            return None;
        }
        let listen_count = get_field::<u64>(v, "listen_count")?;
        let username_name = get_field::<String>(v, "username_name")?;
        Some(StatsReleaseGroupListenersListeners { listen_count, username_name })
    }
}

/// Response type for [`Client::stats_sitewide_artists`](crate::raw::Client::sta
/// ts_sitewide_artists).
#[derive(Debug, Clone, PartialEq, Eq)]
pub struct StatsSitewideArtistsResponse {
    pub rate_limit: Option<RateLimit>,
    pub payload: StatsSitewideArtistsPayload,
}

/// The mathematical value of a [`StatsSitewideArtistsResponse`].
pub struct StatsSitewideArtistsResponseModel {
    pub rate_limit: Option<RateLimit>,
    pub payload: StatsSitewideArtistsPayloadModel,
}

impl DeepView for StatsSitewideArtistsResponse {
    type V = StatsSitewideArtistsResponseModel;

    open spec fn deep_view(&self) -> StatsSitewideArtistsResponseModel {
        StatsSitewideArtistsResponseModel {
            rate_limit: self.rate_limit,
            payload: self.payload.deep_view(),
        }
    }
}

impl FromJson for StatsSitewideArtistsResponse {
    open spec fn decoded(j: Json) -> Option<StatsSitewideArtistsResponseModel> {
        match field::<StatsSitewideArtistsPayload>(j, "payload"@) {
            Some(payload) if j is Object => Some(
                StatsSitewideArtistsResponseModel { rate_limit: None, payload },
            ),
            _ => None,
        }
    }

    fn from_json(v: &serde_json::Value) -> (r: Option<StatsSitewideArtistsResponse>) {
        if !is_object(v) {
            return None;
        }
        let payload = get_field::<StatsSitewideArtistsPayload>(v, "payload")?;
        Some(StatsSitewideArtistsResponse { rate_limit: None, payload })
    }
}

impl ResponseType for StatsSitewideArtistsResponse {
    open spec fn with_rate_limit(
        m: StatsSitewideArtistsResponseModel,
        rate_limit: Option<RateLimit>,
    ) -> StatsSitewideArtistsResponseModel {
        StatsSitewideArtistsResponseModel { rate_limit, ..m }
    }

    fn set_rate_limit(&mut self, rate_limit: Option<RateLimit>) {
        self.rate_limit = rate_limit;
    }
}

/// Type of the [`StatsSitewideArtistsResponse::payload`] field.
#[derive(Debug, Clone, PartialEq, Eq)]
pub struct StatsSitewideArtistsPayload {
    pub artists: Vec<StatsSitewideArtistsArtist>,
    pub offset: u64,
    pub count: u64,
    pub range: String,
    pub last_updated: i64,
    pub from_ts: i64,
    pub to_ts: i64,
}

/// The mathematical value of a [`StatsSitewideArtistsPayload`].
pub struct StatsSitewideArtistsPayloadModel {
    pub artists: Seq<StatsSitewideArtistsArtistModel>,
    pub offset: u64,
    pub count: u64,
    pub range: Seq<char>,
    pub last_updated: i64,
    pub from_ts: i64,
    pub to_ts: i64,
}

impl DeepView for StatsSitewideArtistsPayload {
    type V = StatsSitewideArtistsPayloadModel;

    open spec fn deep_view(&self) -> StatsSitewideArtistsPayloadModel {
        StatsSitewideArtistsPayloadModel {
            artists: self.artists.deep_view(),
            offset: self.offset,
            count: self.count,
            range: self.range.deep_view(),
            last_updated: self.last_updated,
            from_ts: self.from_ts,
            to_ts: self.to_ts,
        }
    }
}

impl FromJson for StatsSitewideArtistsPayload {
    open spec fn decoded(j: Json) -> Option<StatsSitewideArtistsPayloadModel> {
        match (
            field::<Vec<StatsSitewideArtistsArtist>>(j, "artists"@),
            field::<u64>(j, "offset"@),
            field::<u64>(j, "count"@),
            field::<String>(j, "range"@),
            field::<i64>(j, "last_updated"@),
            field::<i64>(j, "from_ts"@),
            field::<i64>(j, "to_ts"@),
        ) {
            (
                Some(artists),
                Some(offset),
                Some(count),
                Some(range),
                Some(last_updated),
                Some(from_ts),
                Some(to_ts),
            ) if j is Object => Some(
                StatsSitewideArtistsPayloadModel {
                    artists,
                    offset,
                    count,
                    range,
                    last_updated,
                    from_ts,
                    to_ts,
                },
            ),
            _ => None,
        }
    }

    fn from_json(v: &serde_json::Value) -> (r: Option<StatsSitewideArtistsPayload>) {
        if !is_object(v) {
            return None;
        }
        let artists = get_field::<Vec<StatsSitewideArtistsArtist>>(v, "artists")?;
        let offset = get_field::<u64>(v, "offset")?;
        let count = get_field::<u64>(v, "count")?;
        let range = get_field::<String>(v, "range")?;
        let last_updated = get_field::<i64>(v, "last_updated")?;
        let from_ts = get_field::<i64>(v, "from_ts")?;
        let to_ts = get_field::<i64>(v, "to_ts")?;
        Some(
            StatsSitewideArtistsPayload {
                artists,
                offset,
                count,
                range,
                last_updated,
                from_ts,
                to_ts,
            },
        )
    }
}

/// Type of the [`StatsSitewideArtistsPayload::artists`] field.
#[derive(Debug, Clone, PartialEq, Eq)]
pub struct StatsSitewideArtistsArtist {
    pub artist_mbids: Option<Vec<String>>,
    pub artist_name: String,
    pub listen_count: u64,
}

/// The mathematical value of a [`StatsSitewideArtistsArtist`].
pub struct StatsSitewideArtistsArtistModel {
    pub artist_mbids: Option<Seq<Seq<char>>>,
    pub artist_name: Seq<char>,
    pub listen_count: u64,
}

impl DeepView for StatsSitewideArtistsArtist {
    type V = StatsSitewideArtistsArtistModel;

    open spec fn deep_view(&self) -> StatsSitewideArtistsArtistModel {
        StatsSitewideArtistsArtistModel {
            artist_mbids: self.artist_mbids.deep_view(),
            artist_name: self.artist_name.deep_view(),
            listen_count: self.listen_count,
        }
    }
}

impl FromJson for StatsSitewideArtistsArtist {
    open spec fn decoded(j: Json) -> Option<StatsSitewideArtistsArtistModel> {
        match (
            optional_field::<Vec<String>>(j, "artist_mbids"@),
            field::<String>(j, "artist_name"@),
            field::<u64>(j, "listen_count"@),
        ) {
            (Some(artist_mbids), Some(artist_name), Some(listen_count)) if j is Object => Some(
                StatsSitewideArtistsArtistModel { artist_mbids, artist_name, listen_count },
            ),
            _ => None,
        }
    }

    fn from_json(v: &serde_json::Value) -> (r: Option<StatsSitewideArtistsArtist>) {
        if !is_object(v) {
            return None;
        }
        let artist_mbids = get_optional_field::<Vec<String>>(v, "artist_mbids")?;
        let artist_name = get_field::<String>(v, "artist_name")?;
        let listen_count = get_field::<u64>(v, "listen_count")?;
        Some(StatsSitewideArtistsArtist { artist_mbids, artist_name, listen_count })
    }
}

/// The artists of one time range, as the sitewide statistics list them when
/// they are asked for several ranges at once.
#[derive(Debug, Clone, PartialEq, Eq)]
pub struct StatsSitewideArtistsTimeRange {
    pub time_range: String,
    pub artists: Vec<StatsSitewideArtistsArtist>,
    pub from_ts: i64,
    pub to_ts: i64,
}

/// The mathematical value of a [`StatsSitewideArtistsTimeRange`].
pub struct StatsSitewideArtistsTimeRangeModel {
    pub time_range: Seq<char>,
    pub artists: Seq<StatsSitewideArtistsArtistModel>,
    pub from_ts: i64,
    pub to_ts: i64,
}

impl DeepView for StatsSitewideArtistsTimeRange {
    type V = StatsSitewideArtistsTimeRangeModel;

    open spec fn deep_view(&self) -> StatsSitewideArtistsTimeRangeModel {
        StatsSitewideArtistsTimeRangeModel {
            time_range: self.time_range.deep_view(),
            artists: self.artists.deep_view(),
            from_ts: self.from_ts,
            to_ts: self.to_ts,
        }
    }
}

impl FromJson for StatsSitewideArtistsTimeRange {
    open spec fn decoded(j: Json) -> Option<StatsSitewideArtistsTimeRangeModel> {
        match (
            field::<String>(j, "time_range"@),
            field::<Vec<StatsSitewideArtistsArtist>>(j, "artists"@),
            field::<i64>(j, "from_ts"@),
            field::<i64>(j, "to_ts"@),
        ) {
            (Some(time_range), Some(artists), Some(from_ts), Some(to_ts)) if j is Object => Some(
                StatsSitewideArtistsTimeRangeModel { time_range, artists, from_ts, to_ts },
            ),
            _ => None,
        }
    }

    fn from_json(v: &serde_json::Value) -> (r: Option<StatsSitewideArtistsTimeRange>) {
        if !is_object(v) {
            return None;
        }
        let time_range = get_field::<String>(v, "time_range")?;
        let artists = get_field::<Vec<StatsSitewideArtistsArtist>>(v, "artists")?;
        let from_ts = get_field::<i64>(v, "from_ts")?;
        let to_ts = get_field::<i64>(v, "to_ts")?;
        Some(StatsSitewideArtistsTimeRange { time_range, artists, from_ts, to_ts })
    }
}

} // verus!
