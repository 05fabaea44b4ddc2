//! Types dealing with playlists in the JSPF format, specifically, MusicBrainz's
//! flavour of it.

use vstd::prelude::*;
use crate::codec::{
    field, field_or, get_field, get_field_or, get_optional_field, is_object, no_items,
    optional_field, put, FromJson, ToJson,
};
use crate::json::{new_object, no_members, object_value, Json};

verus! {

/// Top-level playlist type.
#[derive(Debug, Clone, PartialEq, Eq)]
pub struct Playlist {
    pub playlist: PlaylistInfo,
}

/// The mathematical value of a [`Playlist`].
pub struct PlaylistModel {
    pub playlist: PlaylistInfoModel,
}

impl DeepView for Playlist {
    type V = PlaylistModel;

    open spec fn deep_view(&self) -> PlaylistModel {
        PlaylistModel {
            playlist: self.playlist.deep_view(),
        }
    }
}

impl FromJson for Playlist {
    open spec fn decoded(j: Json) -> Option<PlaylistModel> {
        match field::<PlaylistInfo>(j, "playlist"@) {
            Some(playlist) if j is Object => Some(PlaylistModel { playlist }),
            _ => None,
        }
    }

    fn from_json(v: &serde_json::Value) -> (r: Option<Playlist>) {
        if !is_object(v) {
            return None;
        }
        let playlist = get_field::<PlaylistInfo>(v, "playlist")?;
        Some(Playlist { playlist })
    }
}

/// Type of the [`Playlist::playlist`] field.
#[derive(Debug, Clone, PartialEq, Eq)]
pub struct PlaylistInfo {
    pub extension: PlaylistExtension,
    pub creator: String,
    pub date: String,
    pub title: String,
    pub track: Vec<Track>,
    pub identifier: String,
}

/// The mathematical value of a [`PlaylistInfo`].
pub struct PlaylistInfoModel {
    pub extension: PlaylistExtensionModel,
    pub creator: Seq<char>,
    pub date: Seq<char>,
    pub title: Seq<char>,
    pub track: Seq<TrackModel>,
    pub identifier: Seq<char>,
}

impl DeepView for PlaylistInfo {
    type V = PlaylistInfoModel;

    open spec fn deep_view(&self) -> PlaylistInfoModel {
        PlaylistInfoModel {
            extension: self.extension.deep_view(),
            creator: self.creator.deep_view(),
            date: self.date.deep_view(),
            title: self.title.deep_view(),
            track: self.track.deep_view(),
            identifier: self.identifier.deep_view(),
        }
    }
}

impl FromJson for PlaylistInfo {
    open spec fn decoded(j: Json) -> Option<PlaylistInfoModel> {
        match (
            field::<PlaylistExtension>(j, "extension"@),
            field::<String>(j, "creator"@),
            field::<String>(j, "date"@),
            field::<String>(j, "title"@),
            field::<Vec<Track>>(j, "track"@),
            field::<String>(j, "identifier"@),
        ) {
            (
                Some(extension),
                Some(creator),
                Some(date),
                Some(title),
                Some(track),
                Some(identifier),
            ) if j is Object => Some(
                PlaylistInfoModel { extension, creator, date, title, track, identifier },
            ),
            _ => None,
        }
    }

    fn from_json(v: &serde_json::Value) -> (r: Option<PlaylistInfo>) {
        if !is_object(v) {
            return None;
        }
        let extension = get_field::<PlaylistExtension>(v, "extension")?;
        let creator = get_field::<String>(v, "creator")?;
        let date = get_field::<String>(v, "date")?;
        let title = get_field::<String>(v, "title")?;
        let track = get_field::<Vec<Track>>(v, "track")?;
        let identifier = get_field::<String>(v, "identifier")?;
        Some(PlaylistInfo { extension, creator, date, title, track, identifier })
    }
}

/// Type of the [`PlaylistInfo::extension`] field.
#[derive(Debug, Clone, PartialEq, Eq)]
pub struct PlaylistExtension {
    pub musicbrainz: MusicBrainzPlaylistExtension,
}

/// The mathematical value of a [`PlaylistExtension`].
pub struct PlaylistExtensionModel {
    pub musicbrainz: MusicBrainzPlaylistExtensionModel,
}

impl DeepView for PlaylistExtension {
    type V = PlaylistExtensionModel;

    open spec fn deep_view(&self) -> PlaylistExtensionModel {
        PlaylistExtensionModel {
            musicbrainz: self.musicbrainz.deep_view(),
        }
    }
}

impl FromJson for PlaylistExtension {
    open spec fn decoded(j: Json) -> Option<PlaylistExtensionModel> {
        match field::<MusicBrainzPlaylistExtension>(
            j,
            "https://musicbrainz.org/doc/jspf#playlist"@,
        ) {
            Some(musicbrainz) if j is Object => Some(PlaylistExtensionModel { musicbrainz }),
            _ => None,
        }
    }

    fn from_json(v: &serde_json::Value) -> (r: Option<PlaylistExtension>) {
        if !is_object(v) {
            return None;
        }
        let musicbrainz = get_field::<MusicBrainzPlaylistExtension>(
            v,
            "https://musicbrainz.org/doc/jspf#playlist",
        )?;
        Some(PlaylistExtension { musicbrainz })
    }
}

/// Type of the [`PlaylistExtension::musicbrainz`] field.
#[derive(Debug, Clone, PartialEq, Eq)]
pub struct MusicBrainzPlaylistExtension {
    pub created_for: String,
    pub creator: String,
    pub collaborators: Vec<String>,
    pub copied_from: Option<String>,
    pub copied_from_deleted: bool,
    pub public: bool,
    pub last_modified_at: String,
    pub additional_metadata: AdditionalMetadata,
}

/// The mathematical value of a [`MusicBrainzPlaylistExtension`].
pub struct MusicBrainzPlaylistExtensionModel {
    pub created_for: Seq<char>,
    pub creator: Seq<char>,
    pub collaborators: Seq<Seq<char>>,
    pub copied_from: Option<Seq<char>>,
    pub copied_from_deleted: bool,
    pub public: bool,
    pub last_modified_at: Seq<char>,
    pub additional_metadata: AdditionalMetadataModel,
}

impl DeepView for MusicBrainzPlaylistExtension {
    type V = MusicBrainzPlaylistExtensionModel;

    open spec fn deep_view(&self) -> MusicBrainzPlaylistExtensionModel {
        MusicBrainzPlaylistExtensionModel {
            created_for: self.created_for.deep_view(),
            creator: self.creator.deep_view(),
            collaborators: self.collaborators.deep_view(),
            copied_from: self.copied_from.deep_view(),
            copied_from_deleted: self.copied_from_deleted,
            public: self.public,
            last_modified_at: self.last_modified_at.deep_view(),
            additional_metadata: self.additional_metadata.deep_view(),
        }
    }
}

impl FromJson for MusicBrainzPlaylistExtension {
    open spec fn decoded(j: Json) -> Option<MusicBrainzPlaylistExtensionModel> {
        match (
            field::<String>(j, "created_for"@),
            field::<String>(j, "creator"@),
            field_or::<Vec<String>>(j, "collaborators"@, Seq::empty()),
            optional_field::<String>(j, "copied_from"@),
            field_or::<bool>(j, "copied_from_deleted"@, false),
            field::<bool>(j, "public"@),
            field::<String>(j, "last_modified_at"@),
            field::<AdditionalMetadata>(j, "additional_metadata"@),
        ) {
            (
                Some(created_for),
                Some(creator),
                Some(collaborators),
                Some(copied_from),
                Some(copied_from_deleted),
                Some(public),
                Some(last_modified_at),
                Some(additional_metadata),
            ) if j is Object => Some(
                MusicBrainzPlaylistExtensionModel {
                    created_for,
                    creator,
                    collaborators,
                    copied_from,
                    copied_from_deleted,
                    public,
                    last_modified_at,
                    additional_metadata,
                },
            ),
            _ => None,
        }
    }

    fn from_json(v: &serde_json::Value) -> (r: Option<MusicBrainzPlaylistExtension>) {
        if !is_object(v) {
            return None;
        }
        let created_for = get_field::<String>(v, "created_for")?;
        let creator = get_field::<String>(v, "creator")?;
        let collaborators = get_field_or::<Vec<String>>(v, "collaborators", no_items())?;
        let copied_from = get_optional_field::<String>(v, "copied_from")?;
        let copied_from_deleted = get_field_or::<bool>(v, "copied_from_deleted", false)?;
        let public = get_field::<bool>(v, "public")?;
        let last_modified_at = get_field::<String>(v, "last_modified_at")?;
        let additional_metadata = get_field::<AdditionalMetadata>(v, "additional_metadata")?;
        Some(
            MusicBrainzPlaylistExtension {
                created_for,
                creator,
                collaborators,
                copied_from,
                copied_from_deleted,
                public,
                last_modified_at,
                additional_metadata,
            },
        )
    }
}

/// Type of the [`MusicBrainzPlaylistExtension::additional_metadata`] field.
#[derive(Debug, Clone, PartialEq, Eq)]
pub struct AdditionalMetadata {
    pub algorithm_metadata: Option<AlgorithmMetadata>,
}

/// The mathematical value of an [`AdditionalMetadata`].
pub struct AdditionalMetadataModel {
    pub algorithm_metadata: Option<AlgorithmMetadataModel>,
}

impl DeepView for AdditionalMetadata {
    type V = AdditionalMetadataModel;

    open spec fn deep_view(&self) -> AdditionalMetadataModel {
        AdditionalMetadataModel {
            algorithm_metadata: self.algorithm_metadata.deep_view(),
        }
    }
}

impl FromJson for AdditionalMetadata {
    open spec fn decoded(j: Json) -> Option<AdditionalMetadataModel> {
        match optional_field::<AlgorithmMetadata>(j, "algorithm_metadata"@) {
            Some(algorithm_metadata) if j is Object => Some(
                AdditionalMetadataModel { algorithm_metadata },
            ),
            _ => None,
        }
    }

    fn from_json(v: &serde_json::Value) -> (r: Option<AdditionalMetadata>) {
        if !is_object(v) {
            return None;
        }
        let algorithm_metadata = get_optional_field::<AlgorithmMetadata>(v, "algorithm_metadata")?;
        Some(AdditionalMetadata { algorithm_metadata })
    }
}

impl ToJson for AdditionalMetadata {
    open spec fn encoded(m: AdditionalMetadataModel) -> Json {
        let members = no_members().insert(
            "algorithm_metadata"@,
            Option::<AlgorithmMetadata>::encoded(m.algorithm_metadata),
        );
        Json::Object(members)
    }

    fn to_json(&self) -> (v: serde_json::Value) {
        let mut members = new_object();
        put(&mut members, "algorithm_metadata", &self.algorithm_metadata);
        object_value(members)
    }
}

/// Type of the [`AdditionalMetadata::algorithm_metadata`] field.
#[derive(Debug, Clone, PartialEq, Eq)]
pub struct AlgorithmMetadata {
    pub source_patch: Option<String>,
}

/// The mathematical value of an [`AlgorithmMetadata`].
pub struct AlgorithmMetadataModel {
    pub source_patch: Option<Seq<char>>,
}

impl DeepView for AlgorithmMetadata {
    type V = AlgorithmMetadataModel;

    open spec fn deep_view(&self) -> AlgorithmMetadataModel {
        AlgorithmMetadataModel {
            source_patch: self.source_patch.deep_view(),
        }
    }
}

impl FromJson for AlgorithmMetadata {
    open spec fn decoded(j: Json) -> Option<AlgorithmMetadataModel> {
        match optional_field::<String>(j, "source_patch"@) {
            Some(source_patch) if j is Object => Some(AlgorithmMetadataModel { source_patch }),
            _ => None,
        }
    }

    fn from_json(v: &serde_json::Value) -> (r: Option<AlgorithmMetadata>) {
        if !is_object(v) {
            return None;
        }
        let source_patch = get_optional_field::<String>(v, "source_patch")?;
        Some(AlgorithmMetadata { source_patch })
    }
}

impl ToJson for AlgorithmMetadata {
    open spec fn encoded(m: AlgorithmMetadataModel) -> Json {
        let members = no_members().insert(
            "source_patch"@,
            Option::<String>::encoded(m.source_patch),
        );
        Json::Object(members)
    }

    fn to_json(&self) -> (v: serde_json::Value) {
        let mut members = new_object();
        put(&mut members, "source_patch", &self.source_patch);
        object_value(members)
    }
}

/// Type of the [`PlaylistInfo::track`] field.
#[derive(Debug, Clone, PartialEq, Eq)]
pub struct Track {
    pub title: String,
    pub identifier: String,
    pub creator: String,
    pub extension: TrackExtension,
    pub album: String,
}

/// The mathematical value of a [`Track`].
pub struct TrackModel {
    pub title: Seq<char>,
    pub identifier: Seq<char>,
    pub creator: Seq<char>,
    pub extension: TrackExtensionModel,
    pub album: Seq<char>,
}

impl DeepView for Track {
    type V = TrackModel;

    open spec fn deep_view(&self) -> TrackModel {
        TrackModel {
            title: self.title.deep_view(),
            identifier: self.identifier.deep_view(),
            creator: self.creator.deep_view(),
            extension: self.extension.deep_view(),
            album: self.album.deep_view(),
        }
    }
}

impl FromJson for Track {
    open spec fn decoded(j: Json) -> Option<TrackModel> {
        match (
            field::<String>(j, "title"@),
            field::<String>(j, "identifier"@),
            field::<String>(j, "creator"@),
            field::<TrackExtension>(j, "extension"@),
            field::<String>(j, "album"@),
        ) {
            (
                Some(title),
                Some(identifier),
                Some(creator),
                Some(extension),
                Some(album),
            ) if j is Object => Some(
                TrackModel { title, identifier, creator, extension, album },
            ),
            _ => None,
        }
    }

    fn from_json(v: &serde_json::Value) -> (r: Option<Track>) {
        if !is_object(v) {
            return None;
        }
        let title = get_field::<String>(v, "title")?;
        let identifier = get_field::<String>(v, "identifier")?;
        let creator = get_field::<String>(v, "creator")?;
        let extension = get_field::<TrackExtension>(v, "extension")?;
        let album = get_field::<String>(v, "album")?;
        Some(Track { title, identifier, creator, extension, album })
    }
}

/// Type of the [`Track::extension`] field.
#[derive(Debug, Clone, PartialEq, Eq)]
pub struct TrackExtension {
    pub musicbrainz: MusicBrainzTrackExtension,
}

/// The mathematical value of a [`TrackExtension`].
pub struct TrackExtensionModel {
    pub musicbrainz: MusicBrainzTrackExtensionModel,
}

impl DeepView for TrackExtension {
    type V = TrackExtensionModel;

    open spec fn deep_view(&self) -> TrackExtensionModel {
        TrackExtensionModel {
            musicbrainz: self.musicbrainz.deep_view(),
        }
    }
}

impl FromJson for TrackExtension {
    open spec fn decoded(j: Json) -> Option<TrackExtensionModel> {
        match field::<MusicBrainzTrackExtension>(j, "https://musicbrainz.org/doc/jspf#track"@) {
            Some(musicbrainz) if j is Object => Some(TrackExtensionModel { musicbrainz }),
            _ => None,
        }
    }

    fn from_json(v: &serde_json::Value) -> (r: Option<TrackExtension>) {
        if !is_object(v) {
            return None;
        }
        let musicbrainz = get_field::<MusicBrainzTrackExtension>(
            v,
            "https://musicbrainz.org/doc/jspf#track",
        )?;
        Some(TrackExtension { musicbrainz })
    }
}

/// Type of the [`TrackExtension::musicbrainz`] field.
#[derive(Debug, Clone, PartialEq, Eq)]
pub struct MusicBrainzTrackExtension {
    pub added_by: String,
    pub artist_mbids: Vec<String>,
    pub added_at: String,
    pub release_identifier: Option<String>,
}

/// The mathematical value of a [`MusicBrainzTrackExtension`].
pub struct MusicBrainzTrackExtensionModel {
    pub added_by: Seq<char>,
    pub artist_mbids: Seq<Seq<char>>,
    pub added_at: Seq<char>,
    pub release_identifier: Option<Seq<char>>,
}

impl DeepView for MusicBrainzTrackExtension {
    type V = MusicBrainzTrackExtensionModel;

    open spec fn deep_view(&self) -> MusicBrainzTrackExtensionModel {
        MusicBrainzTrackExtensionModel {
            added_by: self.added_by.deep_view(),
            artist_mbids: self.artist_mbids.deep_view(),
            added_at: self.added_at.deep_view(),
            release_identifier: self.release_identifier.deep_view(),
        }
    }
}

impl FromJson for MusicBrainzTrackExtension {
    open spec fn decoded(j: Json) -> Option<MusicBrainzTrackExtensionModel> {
        match (
            field::<String>(j, "added_by"@),
            field_or::<Vec<String>>(j, "artist_mbids"@, Seq::empty()),
            field::<String>(j, "added_at"@),
            optional_field::<String>(j, "release_identifier"@),
        ) {
            (
                Some(added_by),
                Some(artist_mbids),
                Some(added_at),
                Some(release_identifier),
            ) if j is Object => Some(
                MusicBrainzTrackExtensionModel {
                    added_by,
                    artist_mbids,
                    added_at,
                    release_identifier,
                },
            ),
            _ => None,
        }
    }

    fn from_json(v: &serde_json::Value) -> (r: Option<MusicBrainzTrackExtension>) {
        if !is_object(v) {
            return None;
        }
        let added_by = get_field::<String>(v, "added_by")?;
        let artist_mbids = get_field_or::<Vec<String>>(v, "artist_mbids", no_items())?;
        let added_at = get_field::<String>(v, "added_at")?;
        let release_identifier = get_optional_field::<String>(v, "release_identifier")?;
        Some(MusicBrainzTrackExtension { added_by, artist_mbids, added_at, release_identifier })
    }
}

} // verus!
