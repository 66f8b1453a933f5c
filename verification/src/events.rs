//! Translation of the player's internal event stream into the
//! external-facing event shape.
//!
//! The internal events carry item identities as `TrackId` values; the
//! external events carry canonical URI strings. `translate_event` is a
//! total, exhaustive, one-variant-to-one-variant mapping: every field is
//! preserved and every item identity is rendered as a URI that parses
//! back to exactly that identity.

use vstd::prelude::*;

use crate::uri::ItemKind;
use crate::uri::TrackId;
use crate::uri::render_uri;
use crate::uri::spec_parse_uri;

verus! {

/// The player's internal event stream items, with item identities as
/// parsed `TrackId` values.
pub enum PlayerEventIn {
    Stopped { play_request_id: u64, track_id: TrackId },
    Loading { play_request_id: u64, track_id: TrackId, position_ms: u32 },
    Preloading { track_id: TrackId },
    Playing { play_request_id: u64, track_id: TrackId, position_ms: u32 },
    Paused { play_request_id: u64, track_id: TrackId, position_ms: u32 },
    TimeToPreloadNextTrack { play_request_id: u64, track_id: TrackId },
    EndOfTrack { play_request_id: u64, track_id: TrackId },
    Unavailable { play_request_id: u64, track_id: TrackId },
    VolumeChanged { volume: u16 },
    PositionCorrection { play_request_id: u64, track_id: TrackId, position_ms: u32 },
    Seeked { play_request_id: u64, track_id: TrackId, position_ms: u32 },
    TrackChanged { track_id: TrackId, duration_ms: u32 },
    SessionConnected { connection_id: String, user_name: String },
    SessionDisconnected { connection_id: String, user_name: String },
    SessionClientChanged {
        client_id: String,
        client_name: String,
        client_brand_name: String,
        client_model_name: String,
    },
    ShuffleChanged { shuffle: bool },
    RepeatChanged { repeat: bool },
    AutoPlayChanged { auto_play: bool },
    FilterExplicitContentChanged { filter: bool },
    PlayRequestIdChanged { play_request_id: u64 },
}

/// The external-facing event shape: an independently versioned copy of
/// the internal union, with item identities as canonical URI strings.
pub enum LibrespotPlayerEvent {
    Stopped { play_request_id: u64, track_uri: String },
    Loading { play_request_id: u64, track_uri: String, position_ms: u32 },
    Preloading { track_uri: String },
    Playing { play_request_id: u64, track_uri: String, position_ms: u32 },
    Paused { play_request_id: u64, track_uri: String, position_ms: u32 },
    TimeToPreloadNextTrack { play_request_id: u64, track_uri: String },
    EndOfTrack { play_request_id: u64, track_uri: String },
    Unavailable { play_request_id: u64, track_uri: String },
    VolumeChanged { volume: u16 },
    PositionCorrection { play_request_id: u64, track_uri: String, position_ms: u32 },
    Seeked { play_request_id: u64, track_uri: String, position_ms: u32 },
    TrackChanged { track_uri: String, duration_ms: u32 },
    SessionConnected { connection_id: String, user_name: String },
    SessionDisconnected { connection_id: String, user_name: String },
    SessionClientChanged {
        client_id: String,
        client_name: String,
        client_brand_name: String,
        client_model_name: String,
    },
    ShuffleChanged { shuffle: bool },
    RepeatChanged { repeating: bool },
    AutoPlayChanged { auto_play: bool },
    FilterExplicitContentChanged { filter: bool },
    PlayRequestIdChanged { play_request_id: u64 },
}

/// A URI string carries exactly this item identity.
pub open spec fn uri_carries(u: Seq<char>, t: TrackId) -> bool {
    spec_parse_uri(u) == Some(t)
}

/// The translation relation: each internal variant corresponds to exactly
/// one external variant, all payload fields preserved, item identities
/// rendered as canonical URIs.
pub open spec fn event_translates(ev: PlayerEventIn, r: LibrespotPlayerEvent) -> bool {
    match ev {
        PlayerEventIn::Stopped { play_request_id, track_id } => (r matches
        LibrespotPlayerEvent::Stopped { play_request_id: p, track_uri } && p == play_request_id
            && uri_carries(track_uri@, track_id)),
        PlayerEventIn::Loading { play_request_id, track_id, position_ms } => (r matches
        LibrespotPlayerEvent::Loading { play_request_id: p, track_uri, position_ms: q } && p
            == play_request_id && q == position_ms && uri_carries(track_uri@, track_id)),
        PlayerEventIn::Preloading { track_id } => (r matches LibrespotPlayerEvent::Preloading {
            track_uri,
        } && uri_carries(track_uri@, track_id)),
        PlayerEventIn::Playing { play_request_id, track_id, position_ms } => (r matches
        LibrespotPlayerEvent::Playing { play_request_id: p, track_uri, position_ms: q } && p
            == play_request_id && q == position_ms && uri_carries(track_uri@, track_id)),
        PlayerEventIn::Paused { play_request_id, track_id, position_ms } => (r matches
        LibrespotPlayerEvent::Paused { play_request_id: p, track_uri, position_ms: q } && p
            == play_request_id && q == position_ms && uri_carries(track_uri@, track_id)),
        PlayerEventIn::TimeToPreloadNextTrack { play_request_id, track_id } => (r matches
        LibrespotPlayerEvent::TimeToPreloadNextTrack { play_request_id: p, track_uri } && p
            == play_request_id && uri_carries(track_uri@, track_id)),
        PlayerEventIn::EndOfTrack { play_request_id, track_id } => (r matches
        LibrespotPlayerEvent::EndOfTrack { play_request_id: p, track_uri } && p == play_request_id
            && uri_carries(track_uri@, track_id)),
        PlayerEventIn::Unavailable { play_request_id, track_id } => (r matches
        LibrespotPlayerEvent::Unavailable { play_request_id: p, track_uri } && p == play_request_id
            && uri_carries(track_uri@, track_id)),
        PlayerEventIn::VolumeChanged { volume } => (r matches LibrespotPlayerEvent::VolumeChanged {
            volume: v,
        } && v == volume),
        PlayerEventIn::PositionCorrection { play_request_id, track_id, position_ms } => (r matches
        LibrespotPlayerEvent::PositionCorrection { play_request_id: p, track_uri, position_ms: q }
            && p == play_request_id && q == position_ms && uri_carries(track_uri@, track_id)),
        PlayerEventIn::Seeked { play_request_id, track_id, position_ms } => (r matches
        LibrespotPlayerEvent::Seeked { play_request_id: p, track_uri, position_ms: q } && p
            == play_request_id && q == position_ms && uri_carries(track_uri@, track_id)),
        PlayerEventIn::TrackChanged { track_id, duration_ms } => (r matches
        LibrespotPlayerEvent::TrackChanged { track_uri, duration_ms: d } && d == duration_ms
            && uri_carries(track_uri@, track_id)),
        PlayerEventIn::SessionConnected { connection_id, user_name } => (r matches
        LibrespotPlayerEvent::SessionConnected { connection_id: c, user_name: u } && c
            == connection_id && u == user_name),
        PlayerEventIn::SessionDisconnected { connection_id, user_name } => (r matches
        LibrespotPlayerEvent::SessionDisconnected { connection_id: c, user_name: u } && c
            == connection_id && u == user_name),
        PlayerEventIn::SessionClientChanged {
            client_id,
            client_name,
            client_brand_name,
            client_model_name,
        } => (r matches LibrespotPlayerEvent::SessionClientChanged {
            client_id: a,
            client_name: b,
            client_brand_name: c,
            client_model_name: d,
        } && a == client_id && b == client_name && c == client_brand_name && d
            == client_model_name),
        PlayerEventIn::ShuffleChanged { shuffle } => (r matches
        LibrespotPlayerEvent::ShuffleChanged { shuffle: v } && v == shuffle),
        PlayerEventIn::RepeatChanged { repeat } => (r matches LibrespotPlayerEvent::RepeatChanged {
            repeating: v,
        } && v == repeat),
        PlayerEventIn::AutoPlayChanged { auto_play } => (r matches
        LibrespotPlayerEvent::AutoPlayChanged { auto_play: v } && v == auto_play),
        PlayerEventIn::FilterExplicitContentChanged { filter } => (r matches
        LibrespotPlayerEvent::FilterExplicitContentChanged { filter: v } && v == filter),
        PlayerEventIn::PlayRequestIdChanged { play_request_id } => (r matches
        LibrespotPlayerEvent::PlayRequestIdChanged { play_request_id: p } && p == play_request_id),
    }
}

/// Loading a well-formed URI dispatches its identity with the kind
/// forced to `Track`, and a playback event carrying that identity
/// translates to a URI that parses back to it: the event's URI is the
/// input URI with its item kind normalized to `"track"`, whatever kind
/// the input encoded.
pub proof fn lemma_load_event_uri_normalized(
    u: Seq<char>,
    pr: u64,
    pos: u32,
    r: LibrespotPlayerEvent,
)
    requires
        spec_parse_uri(u) is Some,
        event_translates(
            (PlayerEventIn::Playing {
                play_request_id: pr,
                track_id: TrackId { id: spec_parse_uri(u)->Some_0.id, kind: ItemKind::Track },
                position_ms: pos,
            }),
            r,
        ),
    ensures
        r matches LibrespotPlayerEvent::Playing { play_request_id, track_uri, position_ms }
            && play_request_id == pr && position_ms == pos && spec_parse_uri(track_uri@) == Some(
            TrackId { id: spec_parse_uri(u)->Some_0.id, kind: ItemKind::Track },
        ),
{
}

/// Translate one internal event into its external counterpart. The match
/// is exhaustive with no catch-all arm, so a new internal variant cannot
/// be dropped silently.
pub fn translate_event(ev: PlayerEventIn) -> (r: LibrespotPlayerEvent)
    ensures
        event_translates(ev, r),
{
    match ev {
        PlayerEventIn::Stopped { play_request_id, track_id } => LibrespotPlayerEvent::Stopped {
            play_request_id,
            track_uri: render_uri(&track_id),
        },
        PlayerEventIn::Loading { play_request_id, track_id, position_ms } => {
            LibrespotPlayerEvent::Loading {
                play_request_id,
                track_uri: render_uri(&track_id),
                position_ms,
            }
        },
        PlayerEventIn::Preloading { track_id } => LibrespotPlayerEvent::Preloading {
            track_uri: render_uri(&track_id),
        },
        PlayerEventIn::Playing { play_request_id, track_id, position_ms } => {
            LibrespotPlayerEvent::Playing {
                play_request_id,
                track_uri: render_uri(&track_id),
                position_ms,
            }
        },
        PlayerEventIn::Paused { play_request_id, track_id, position_ms } => {
            LibrespotPlayerEvent::Paused {
                play_request_id,
                track_uri: render_uri(&track_id),
                position_ms,
            }
        },
        PlayerEventIn::TimeToPreloadNextTrack { play_request_id, track_id } => {
            LibrespotPlayerEvent::TimeToPreloadNextTrack {
                play_request_id,
                track_uri: render_uri(&track_id),
            }
        },
        PlayerEventIn::EndOfTrack { play_request_id, track_id } => {
            LibrespotPlayerEvent::EndOfTrack {
                play_request_id,
                track_uri: render_uri(&track_id),
            }
        },
        PlayerEventIn::Unavailable { play_request_id, track_id } => {
            LibrespotPlayerEvent::Unavailable {
                play_request_id,
                track_uri: render_uri(&track_id),
            }
        },
        PlayerEventIn::VolumeChanged { volume } => LibrespotPlayerEvent::VolumeChanged { volume },
        PlayerEventIn::PositionCorrection { play_request_id, track_id, position_ms } => {
            LibrespotPlayerEvent::PositionCorrection {
                play_request_id,
                track_uri: render_uri(&track_id),
                position_ms,
            }
        },
        PlayerEventIn::Seeked { play_request_id, track_id, position_ms } => {
            LibrespotPlayerEvent::Seeked {
                play_request_id,
                track_uri: render_uri(&track_id),
                position_ms,
            }
        },
        PlayerEventIn::TrackChanged { track_id, duration_ms } => {
            LibrespotPlayerEvent::TrackChanged {
                track_uri: render_uri(&track_id),
                duration_ms,
            }
        },
        PlayerEventIn::SessionConnected { connection_id, user_name } => {
            LibrespotPlayerEvent::SessionConnected { connection_id, user_name }
        },
        PlayerEventIn::SessionDisconnected { connection_id, user_name } => {
            LibrespotPlayerEvent::SessionDisconnected { connection_id, user_name }
        },
        PlayerEventIn::SessionClientChanged {
            client_id,
            client_name,
            client_brand_name,
            client_model_name,
        } => LibrespotPlayerEvent::SessionClientChanged {
            client_id,
            client_name,
            client_brand_name,
            client_model_name,
        },
        PlayerEventIn::ShuffleChanged { shuffle } => LibrespotPlayerEvent::ShuffleChanged {
            shuffle,
        },
        PlayerEventIn::RepeatChanged { repeat } => LibrespotPlayerEvent::RepeatChanged {
            repeating: repeat,
        },
        PlayerEventIn::AutoPlayChanged { auto_play } => LibrespotPlayerEvent::AutoPlayChanged {
            auto_play,
        },
        PlayerEventIn::FilterExplicitContentChanged { filter } => {
            LibrespotPlayerEvent::FilterExplicitContentChanged { filter }
        },
        PlayerEventIn::PlayRequestIdChanged { play_request_id } => {
            LibrespotPlayerEvent::PlayRequestIdChanged { play_request_id }
        },
    }
}

} // verus!
