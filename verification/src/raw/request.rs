//! Low-level request data models.

use vstd::prelude::*;
use crate::codec::{
    encoded_if_some, encoded_items, object_if_some, optional_entries, put, put_if_some,
    put_object_if_some, with_optional, ToJson,
};
use crate::json::{
    array_value, insert_member, new_object, no_members, object_value, text_value, value_model,
    value_models, Json,
};
use crate::raw::jspf::{AdditionalMetadata, AdditionalMetadataModel};

verus! {

/// Request type for
/// [`Client::submit_listens`](crate::raw::Client::submit_listens).
#[derive(Debug, Clone, PartialEq, Eq)]
pub struct SubmitListens {
    pub listen_type: ListenType,
    pub payload: Vec<Payload>,
}

/// The mathematical value of a [`SubmitListens`].
pub struct SubmitListensModel {
    pub listen_type: ListenType,
    pub payload: Seq<PayloadModel>,
}

impl DeepView for SubmitListens {
    type V = SubmitListensModel;

    open spec fn deep_view(&self) -> SubmitListensModel {
        SubmitListensModel {
            listen_type: self.listen_type,
            payload: self.payload.deep_view(),
        }
    }
}

impl SubmitListensModel {
    /// The listens as they are submitted: each of them as its listen type
    /// has it, so that none of the listens that are playing now carries a
    /// time.
    pub open spec fn submitted(self) -> Seq<PayloadModel> {
        Seq::new(self.payload.len(), |i: int| self.payload[i].submitted_as(self.listen_type))
    }
}

impl ToJson for SubmitListens {
    open spec fn encoded(m: SubmitListensModel) -> Json {
        let members = no_members().insert("listen_type"@, ListenType::encoded(m.listen_type));
        let members = members.insert("payload"@, Vec::<Payload>::encoded(m.submitted()));
        Json::Object(members)
    }

    fn to_json(&self) -> (v: serde_json::Value) {
        let mut members = new_object();
        put(&mut members, "listen_type", &self.listen_type);
        let mut items: Vec<serde_json::Value> = Vec::new();
        for i in 0..self.payload.len()
            invariant
                items@.len() == i,
                forall|k: int|
                    0 <= k < i ==> #[trigger] value_model(items@[k]) == Payload::encoded(
                        self.payload@[k].deep_view().submitted_as(self.listen_type),
                    ),
        {
            items.push(self.payload[i].to_json_as(self.listen_type));
        }
        assert(value_models(items@) =~= encoded_items::<Payload>(self.deep_view().submitted()));
        insert_member(&mut members, "payload", array_value(items));
        object_value(members)
    }
}

/// Type of the [`SubmitListens::listen_type`] field.
#[derive(Debug, Clone, Copy, PartialEq, Eq)]
pub enum ListenType {
    /// One listen, submitted when the track has been listened to.
    Single,
    /// The track that is playing at the moment. It is submitted without a
    /// time, whatever time the listen holds.
    PlayingNow,
    /// Listens that were collected earlier.
    Import,
}

impl DeepView for ListenType {
    type V = ListenType;

    open spec fn deep_view(&self) -> ListenType {
        *self
    }
}

impl ListenType {
    /// The word that stands for the listen type in a request.
    pub open spec fn word(self) -> Seq<char> {
        match self {
            ListenType::Single => "single"@,
            ListenType::PlayingNow => "playing_now"@,
            ListenType::Import => "import"@,
        }
    }

    /// The word that stands for the listen type in a request.
    pub fn as_str(&self) -> (r: &'static str)
        ensures
            r@ == self.word(),
    {
        match self {
            ListenType::Single => "single",
            ListenType::PlayingNow => "playing_now",
            ListenType::Import => "import",
        }
    }
}

impl ToJson for ListenType {
    open spec fn encoded(m: ListenType) -> Json {
        Json::Text(m.word())
    }

    fn to_json(&self) -> (v: serde_json::Value) {
        text_value(self.as_str())
    }
}

/// Type of the [`SubmitListens::payload`] field.
#[derive(Debug, Clone, PartialEq, Eq)]
pub struct Payload {
    /// The UNIX time of the listen. It is left out of the request when it is
    /// `None`, and in every submission of what is playing now.
    pub listened_at: Option<i64>,
    pub track_metadata: TrackMetadata,
}

/// The mathematical value of a [`Payload`].
pub struct PayloadModel {
    pub listened_at: Option<i64>,
    pub track_metadata: TrackMetadataModel,
}

impl DeepView for Payload {
    type V = PayloadModel;

    open spec fn deep_view(&self) -> PayloadModel {
        PayloadModel {
            listened_at: self.listened_at.deep_view(),
            track_metadata: self.track_metadata.deep_view(),
        }
    }
}

impl PayloadModel {
    /// The listen as it is submitted with a listen type. A listen that is
    /// playing now is submitted without a time, whatever time it holds; any
    /// other listen is submitted as it is.
    pub open spec fn submitted_as(self, listen_type: ListenType) -> PayloadModel {
        if listen_type is PlayingNow {
            PayloadModel { listened_at: None, ..self }
        } else {
            self
        }
    }
}

impl Payload {
    /// Builds the document of the listen as it is submitted with a listen
    /// type: without its time where it is playing now.
    pub fn to_json_as(&self, listen_type: ListenType) -> (v: serde_json::Value)
        ensures
            value_model(v) == Payload::encoded(self.deep_view().submitted_as(listen_type)),
    {
        let mut members = new_object();
        match listen_type {
            ListenType::PlayingNow => {},
            _ => {
                put_if_some(&mut members, "listened_at", &self.listened_at);
            },
        }
        put(&mut members, "track_metadata", &self.track_metadata);
        object_value(members)
    }
}

impl ToJson for Payload {
    open spec fn encoded(m: PayloadModel) -> Json {
        let members = with_optional(
            no_members(),
            "listened_at"@,
            encoded_if_some::<i64>(m.listened_at),
        );
        let members = members.insert("track_metadata"@, TrackMetadata::encoded(m.track_metadata));
        Json::Object(members)
    }

    fn to_json(&self) -> (v: serde_json::Value) {
        let mut members = new_object();
        put_if_some(&mut members, "listened_at", &self.listened_at);
        put(&mut members, "track_metadata", &self.track_metadata);
        object_value(members)
    }
}

/// Type of the [`Payload::track_metadata`] field.
#[derive(Debug, Clone, PartialEq, Eq)]
pub struct TrackMetadata {
    pub track_name: String,
    pub artist_name: String,
    /// The name of the release. It is left out of the request when it is
    /// `None`.
    pub release_name: Option<String>,
    /// Anything else that is known of the track. It is left out of the request
    /// when it is `None`.
    pub additional_info: Option<serde_json::Map<String, serde_json::Value>>,
}

/// The mathematical value of a [`TrackMetadata`].
pub struct TrackMetadataModel {
    pub track_name: Seq<char>,
    pub artist_name: Seq<char>,
    pub release_name: Option<Seq<char>>,
    pub additional_info: Option<Map<Seq<char>, Json>>,
}

impl DeepView for TrackMetadata {
    type V = TrackMetadataModel;

    open spec fn deep_view(&self) -> TrackMetadataModel {
        TrackMetadataModel {
            track_name: self.track_name.deep_view(),
            artist_name: self.artist_name.deep_view(),
            release_name: self.release_name.deep_view(),
            additional_info: optional_entries(self.additional_info),
        }
    }
}

impl ToJson for TrackMetadata {
    open spec fn encoded(m: TrackMetadataModel) -> Json {
        let members = no_members().insert("track_name"@, String::encoded(m.track_name));
        let members = members.insert("artist_name"@, String::encoded(m.artist_name));
        let members = with_optional(
            members,
            "release_name"@,
            encoded_if_some::<String>(m.release_name),
        );
        let members = with_optional(members, "additional_info"@, object_if_some(m.additional_info));
        Json::Object(members)
    }

    fn to_json(&self) -> (v: serde_json::Value) {
        let mut members = new_object();
        put(&mut members, "track_name", &self.track_name);
        put(&mut members, "artist_name", &self.artist_name);
        put_if_some(&mut members, "release_name", &self.release_name);
        put_object_if_some(&mut members, "additional_info", &self.additional_info);
        object_value(members)
    }
}

/// A listen is written with its time exactly when it has one: the member
/// `listened_at` then holds that very number, and a listen without a time has
/// no such member.
pub proof fn lemma_listened_at_written(listen: PayloadModel)
    ensures
        Payload::encoded(listen).member("listened_at"@) == match listen.listened_at {
            Some(at) => Some(Json::Int(at as int)),
            None => None::<Json>,
        },
{
    reveal_strlit("listened_at");
    reveal_strlit("track_metadata");
    assert("listened_at"@.len() != "track_metadata"@.len());
}

/// The listens that a submitted document holds: the items of its member
/// `payload`.
pub open spec fn written_listens(body: Json) -> Seq<Json> {
    match body.member("payload"@) {
        Some(Json::Array(items)) => items,
        _ => Seq::empty(),
    }
}

/// The time that a listen is written with in a submission of the given
/// listen type: none where it is playing now, else its own.
pub open spec fn time_written(listen_type: ListenType, listen: PayloadModel) -> Option<Json> {
    if listen_type is PlayingNow {
        None
    } else {
        match listen.listened_at {
            Some(at) => Some(Json::Int(at as int)),
            None => None,
        }
    }
}

/// A submission is written with one item for each of its listens, in their
/// order, and each item holds the time that its listen type allows: a listen
/// of any type but playing now has the member `listened_at` exactly when it
/// holds a time, and then with that very number.
pub proof fn lemma_listen_times_written(listens: SubmitListensModel)
    ensures
        written_listens(SubmitListens::encoded(listens)).len() == listens.payload.len(),
        forall|i: int|
            0 <= i < listens.payload.len() ==> (#[trigger] written_listens(
                SubmitListens::encoded(listens),
            )[i]).member("listened_at"@) == time_written(listens.listen_type, listens.payload[i]),
{
    let items = written_listens(SubmitListens::encoded(listens));
    assert(items == encoded_items::<Payload>(listens.submitted()));
    assert forall|i: int| 0 <= i < listens.payload.len() implies (#[trigger] items[i]).member(
        "listened_at"@,
    ) == time_written(listens.listen_type, listens.payload[i]) by {
        lemma_listened_at_written(listens.payload[i].submitted_as(listens.listen_type));
    }
}

/// A submission of what is playing now never writes a time: none of its
/// items has the member `listened_at`, whatever the listens hold.
pub proof fn lemma_playing_now_without_time(listens: SubmitListensModel)
    requires
        listens.listen_type is PlayingNow,
    ensures
        forall|i: int|
            0 <= i < listens.payload.len() ==> (#[trigger] written_listens(
                SubmitListens::encoded(listens),
            )[i]).member("listened_at"@) is None,
{
    lemma_listen_times_written(listens);
}

/// Request type for
/// [`Client::delete_listen`](crate::raw::Client::delete_listen).
#[derive(Debug, Clone, PartialEq, Eq)]
pub struct DeleteListen {
    pub listened_at: i64,
    pub recording_msid: String,
}

/// The mathematical value of a [`DeleteListen`].
pub struct DeleteListenModel {
    pub listened_at: i64,
    pub recording_msid: Seq<char>,
}

impl DeepView for DeleteListen {
    type V = DeleteListenModel;

    open spec fn deep_view(&self) -> DeleteListenModel {
        DeleteListenModel {
            listened_at: self.listened_at,
            recording_msid: self.recording_msid.deep_view(),
        }
    }
}

impl ToJson for DeleteListen {
    open spec fn encoded(m: DeleteListenModel) -> Json {
        let members = no_members().insert("listened_at"@, i64::encoded(m.listened_at));
        let members = members.insert("recording_msid"@, String::encoded(m.recording_msid));
        Json::Object(members)
    }

    fn to_json(&self) -> (v: serde_json::Value) {
        let mut members = new_object();
        put(&mut members, "listened_at", &self.listened_at);
        put(&mut members, "recording_msid", &self.recording_msid);
        object_value(members)
    }
}

/// Request type for
/// [`Client::update_latest_import`](crate::raw::Client::update_latest_import).
#[derive(Debug, Clone, PartialEq, Eq)]
pub struct UpdateLatestImport {
    pub ts: i64,
}

/// The mathematical value of an [`UpdateLatestImport`].
pub struct UpdateLatestImportModel {
    pub ts: i64,
}

impl DeepView for UpdateLatestImport {
    type V = UpdateLatestImportModel;

    open spec fn deep_view(&self) -> UpdateLatestImportModel {
        UpdateLatestImportModel {
            ts: self.ts,
        }
    }
}

impl ToJson for UpdateLatestImport {
    open spec fn encoded(m: UpdateLatestImportModel) -> Json {
        let members = no_members().insert("ts"@, i64::encoded(m.ts));
        Json::Object(members)
    }

    fn to_json(&self) -> (v: serde_json::Value) {
        let mut members = new_object();
        put(&mut members, "ts", &self.ts);
        object_value(members)
    }
}

/// What the `playlist/create` endpoint is sent.
#[derive(Debug, Clone, PartialEq, Eq)]
pub struct PlaylistCreate {
    pub playlist: PlaylistCreatePlaylist,
}

/// The mathematical value of a [`PlaylistCreate`].
pub struct PlaylistCreateModel {
    pub playlist: PlaylistCreatePlaylistModel,
}

impl DeepView for PlaylistCreate {
    type V = PlaylistCreateModel;

    open spec fn deep_view(&self) -> PlaylistCreateModel {
        PlaylistCreateModel {
            playlist: self.playlist.deep_view(),
        }
    }
}

impl ToJson for PlaylistCreate {
    open spec fn encoded(m: PlaylistCreateModel) -> Json {
        let members = no_members().insert("playlist"@, PlaylistCreatePlaylist::encoded(m.playlist));
        Json::Object(members)
    }

    fn to_json(&self) -> (v: serde_json::Value) {
        let mut members = new_object();
        put(&mut members, "playlist", &self.playlist);
        object_value(members)
    }
}

/// Inner type for [`PlaylistCreate`].
#[derive(Debug, Clone, PartialEq, Eq)]
pub struct PlaylistCreatePlaylist {
    pub title: String,
    pub annotation: Option<String>,
    pub track: Vec<PlaylistCreatePlaylistTrack>,
    pub extension: PlaylistCreatePlaylistExtension,
}

/// The mathematical value of a [`PlaylistCreatePlaylist`].
pub struct PlaylistCreatePlaylistModel {
    pub title: Seq<char>,
    pub annotation: Option<Seq<char>>,
    pub track: Seq<PlaylistCreatePlaylistTrackModel>,
    pub extension: PlaylistCreatePlaylistExtensionModel,
}

impl DeepView for PlaylistCreatePlaylist {
    type V = PlaylistCreatePlaylistModel;

    open spec fn deep_view(&self) -> PlaylistCreatePlaylistModel {
        PlaylistCreatePlaylistModel {
            title: self.title.deep_view(),
            annotation: self.annotation.deep_view(),
            track: self.track.deep_view(),
            extension: self.extension.deep_view(),
        }
    }
}

impl ToJson for PlaylistCreatePlaylist {
    open spec fn encoded(m: PlaylistCreatePlaylistModel) -> Json {
        let members = no_members().insert("title"@, String::encoded(m.title));
        let members = members.insert("annotation"@, Option::<String>::encoded(m.annotation));
        let members = members.insert(
            "track"@,
            Vec::<PlaylistCreatePlaylistTrack>::encoded(m.track),
        );
        let members = members.insert(
            "extension"@,
            PlaylistCreatePlaylistExtension::encoded(m.extension),
        );
        Json::Object(members)
    }

    fn to_json(&self) -> (v: serde_json::Value) {
        let mut members = new_object();
        put(&mut members, "title", &self.title);
        put(&mut members, "annotation", &self.annotation);
        put(&mut members, "track", &self.track);
        put(&mut members, "extension", &self.extension);
        object_value(members)
    }
}

/// A track of the playlist for [`PlaylistCreatePlaylist`].
///
/// The identifier of the track must be a MusicBrainz URI, such as
/// `https://musicbrainz.org/recording/8f3471b5-7e6a-48da-86a9-c1c07a0f47ae`,
/// not the bare MBID.
#[derive(Debug, Clone, PartialEq, Eq)]
pub struct PlaylistCreatePlaylistTrack {
    pub identifier: String,
}

/// The mathematical value of a [`PlaylistCreatePlaylistTrack`].
pub struct PlaylistCreatePlaylistTrackModel {
    pub identifier: Seq<char>,
}

impl DeepView for PlaylistCreatePlaylistTrack {
    type V = PlaylistCreatePlaylistTrackModel;

    open spec fn deep_view(&self) -> PlaylistCreatePlaylistTrackModel {
        PlaylistCreatePlaylistTrackModel {
            identifier: self.identifier.deep_view(),
        }
    }
}

impl ToJson for PlaylistCreatePlaylistTrack {
    open spec fn encoded(m: PlaylistCreatePlaylistTrackModel) -> Json {
        let members = no_members().insert("identifier"@, String::encoded(m.identifier));
        Json::Object(members)
    }

    fn to_json(&self) -> (v: serde_json::Value) {
        let mut members = new_object();
        put(&mut members, "identifier", &self.identifier);
        object_value(members)
    }
}

/// The extension of [`PlaylistCreatePlaylist`].
#[derive(Debug, Clone, PartialEq, Eq)]
pub struct PlaylistCreatePlaylistExtension {
    pub musicbrainz: PlaylistCreatePlaylistExtensionInner,
}

/// The mathematical value of a [`PlaylistCreatePlaylistExtension`].
pub struct PlaylistCreatePlaylistExtensionModel {
    pub musicbrainz: PlaylistCreatePlaylistExtensionInnerModel,
}

impl DeepView for PlaylistCreatePlaylistExtension {
    type V = PlaylistCreatePlaylistExtensionModel;

    open spec fn deep_view(&self) -> PlaylistCreatePlaylistExtensionModel {
        PlaylistCreatePlaylistExtensionModel {
            musicbrainz: self.musicbrainz.deep_view(),
        }
    }
}

impl ToJson for PlaylistCreatePlaylistExtension {
    open spec fn encoded(m: PlaylistCreatePlaylistExtensionModel) -> Json {
        let members = no_members().insert(
            "https://musicbrainz.org/doc/jspf#playlist"@,
            PlaylistCreatePlaylistExtensionInner::encoded(m.musicbrainz),
        );
        Json::Object(members)
    }

    fn to_json(&self) -> (v: serde_json::Value) {
        let mut members = new_object();
        put(&mut members, "https://musicbrainz.org/doc/jspf#playlist", &self.musicbrainz);
        object_value(members)
    }
}

/// Inner part of [`PlaylistCreatePlaylistExtension`].
#[derive(Debug, Clone, PartialEq, Eq)]
pub struct PlaylistCreatePlaylistExtensionInner {
    pub created_for: Option<String>,
    pub creator: Option<String>,
    pub collaborators: Vec<String>,
    pub copied_from: Option<String>,
    pub copied_from_deleted: Option<bool>,
    pub public: bool,
    pub last_modified_at: Option<String>,
    pub additional_metadata: Option<AdditionalMetadata>,
}

/// The mathematical value of a [`PlaylistCreatePlaylistExtensionInner`].
pub struct PlaylistCreatePlaylistExtensionInnerModel {
    pub created_for: Option<Seq<char>>,
    pub creator: Option<Seq<char>>,
    pub collaborators: Seq<Seq<char>>,
    pub copied_from: Option<Seq<char>>,
    pub copied_from_deleted: Option<bool>,
    pub public: bool,
    pub last_modified_at: Option<Seq<char>>,
    pub additional_metadata: Option<AdditionalMetadataModel>,
}

impl DeepView for PlaylistCreatePlaylistExtensionInner {
    type V = PlaylistCreatePlaylistExtensionInnerModel;

    open spec fn deep_view(&self) -> PlaylistCreatePlaylistExtensionInnerModel {
        PlaylistCreatePlaylistExtensionInnerModel {
            created_for: self.created_for.deep_view(),
            creator: self.creator.deep_view(),
            collaborators: self.collaborators.deep_view(),
            copied_from: self.copied_from.deep_view(),
            copied_from_deleted: self.copied_from_deleted.deep_view(),
            public: self.public,
            last_modified_at: self.last_modified_at.deep_view(),
            additional_metadata: self.additional_metadata.deep_view(),
        }
    }
}

impl ToJson for PlaylistCreatePlaylistExtensionInner {
    open spec fn encoded(m: PlaylistCreatePlaylistExtensionInnerModel) -> Json {
        let members = no_members().insert("created_for"@, Option::<String>::encoded(m.created_for));
        let members = members.insert("creator"@, Option::<String>::encoded(m.creator));
        let members = members.insert("collaborators"@, Vec::<String>::encoded(m.collaborators));
        let members = members.insert("copied_from"@, Option::<String>::encoded(m.copied_from));
        let members = members.insert(
            "copied_from_deleted"@,
            Option::<bool>::encoded(m.copied_from_deleted),
        );
        let members = members.insert("public"@, bool::encoded(m.public));
        let members = members.insert(
            "last_modified_at"@,
            Option::<String>::encoded(m.last_modified_at),
        );
        let members = members.insert(
            "additional_metadata"@,
            Option::<AdditionalMetadata>::encoded(m.additional_metadata),
        );
        Json::Object(members)
    }

    fn to_json(&self) -> (v: serde_json::Value) {
        let mut members = new_object();
        put(&mut members, "created_for", &self.created_for);
        put(&mut members, "creator", &self.creator);
        put(&mut members, "collaborators", &self.collaborators);
        put(&mut members, "copied_from", &self.copied_from);
        put(&mut members, "copied_from_deleted", &self.copied_from_deleted);
        put(&mut members, "public", &self.public);
        put(&mut members, "last_modified_at", &self.last_modified_at);
        put(&mut members, "additional_metadata", &self.additional_metadata);
        object_value(members)
    }
}

/// What the `art/grid` endpoint is sent: how to lay cover art out in a grid.
#[derive(Debug, Clone, PartialEq, Eq)]
pub struct ArtGrid {
    /// The background for the cover art.
    pub background: ArtGridBackground,
    /// The size of the cover art image.
    pub image_size: u64,
    /// The dimension to use for this grid. A grid of dimension 3 has 3 images
    /// across and 3 images down, for a total of 9 images.
    pub dimension: u64,
    /// If cover art is missing for a given release, skip it and move on to the
    /// next one, if true is passed. If false, `show_caa` decides what happens.
    pub skip_missing: bool,
    /// If cover art is missing and `skip_missing` is false, this decides
    /// whether a blank square or the Cover Art Archive's missing image is
    /// shown.
    pub show_caa: bool,
    /// Where the cover art images are placed. Each string is a comma separated
    /// list of cells; the cells of a grid are numbered row by row, starting
    /// with 0 in the upper left corner. An image covers the bounding box of its
    /// cells.
    pub tiles: Option<Vec<String>>,
    /// An ordered list of release MBIDs. The images are loaded and processed in
    /// the order of this list.
    pub release_mbids: Option<Vec<String>>,
    /// An ordered list of release group MBIDs. The images are loaded and
    /// processed in the order of this list.
    pub release_group_mbids: Option<Vec<String>>,
    /// Size in pixels of each cover art in the composited image. Can be either
    /// 250 or 500.
    pub cover_art_size: Option<u64>,
}

/// The mathematical value of an [`ArtGrid`].
pub struct ArtGridModel {
    pub background: ArtGridBackground,
    pub image_size: u64,
    pub dimension: u64,
    pub skip_missing: bool,
    pub show_caa: bool,
    pub tiles: Option<Seq<Seq<char>>>,
    pub release_mbids: Option<Seq<Seq<char>>>,
    pub release_group_mbids: Option<Seq<Seq<char>>>,
    pub cover_art_size: Option<u64>,
}

impl DeepView for ArtGrid {
    type V = ArtGridModel;

    open spec fn deep_view(&self) -> ArtGridModel {
        ArtGridModel {
            background: self.background,
            image_size: self.image_size,
            dimension: self.dimension,
            skip_missing: self.skip_missing,
            show_caa: self.show_caa,
            tiles: self.tiles.deep_view(),
            release_mbids: self.release_mbids.deep_view(),
            release_group_mbids: self.release_group_mbids.deep_view(),
            cover_art_size: self.cover_art_size.deep_view(),
        }
    }
}

impl ToJson for ArtGrid {
    open spec fn encoded(m: ArtGridModel) -> Json {
        let members = no_members().insert("background"@, ArtGridBackground::encoded(m.background));
        let members = members.insert("image_size"@, u64::encoded(m.image_size));
        let members = members.insert("dimension"@, u64::encoded(m.dimension));
        let members = members.insert("skip-missing"@, bool::encoded(m.skip_missing));
        let members = members.insert("show-caa"@, bool::encoded(m.show_caa));
        let members = members.insert("tiles"@, Option::<Vec<String>>::encoded(m.tiles));
        let members = members.insert(
            "release_mbids"@,
            Option::<Vec<String>>::encoded(m.release_mbids),
        );
        let members = members.insert(
            "release_group_mbids"@,
            Option::<Vec<String>>::encoded(m.release_group_mbids),
        );
        let members = members.insert("cover_art_size"@, Option::<u64>::encoded(m.cover_art_size));
        Json::Object(members)
    }

    fn to_json(&self) -> (v: serde_json::Value) {
        let mut members = new_object();
        put(&mut members, "background", &self.background);
        put(&mut members, "image_size", &self.image_size);
        put(&mut members, "dimension", &self.dimension);
        put(&mut members, "skip-missing", &self.skip_missing);
        put(&mut members, "show-caa", &self.show_caa);
        put(&mut members, "tiles", &self.tiles);
        put(&mut members, "release_mbids", &self.release_mbids);
        put(&mut members, "release_group_mbids", &self.release_group_mbids);
        put(&mut members, "cover_art_size", &self.cover_art_size);
        object_value(members)
    }
}

/// The background for the cover art.
#[derive(Debug, Clone, Copy, PartialEq, Eq)]
pub enum ArtGridBackground {
    Transparent,
    White,
    Black,
}

impl DeepView for ArtGridBackground {
    type V = ArtGridBackground;

    open spec fn deep_view(&self) -> ArtGridBackground {
        *self
    }
}

impl ArtGridBackground {
    /// The word that stands for the background in a request.
    pub open spec fn word(self) -> Seq<char> {
        match self {
            ArtGridBackground::Transparent => "transparent"@,
            ArtGridBackground::White => "white"@,
            ArtGridBackground::Black => "black"@,
        }
    }

    /// The word that stands for the background in a request.
    pub fn as_str(&self) -> (r: &'static str)
        ensures
            r@ == self.word(),
    {
        match self {
            ArtGridBackground::Transparent => "transparent",
            ArtGridBackground::White => "white",
            ArtGridBackground::Black => "black",
        }
    }
}

impl ToJson for ArtGridBackground {
    open spec fn encoded(m: ArtGridBackground) -> Json {
        Json::Text(m.word())
    }

    fn to_json(&self) -> (v: serde_json::Value) {
        text_value(self.as_str())
    }
}

} // verus!
