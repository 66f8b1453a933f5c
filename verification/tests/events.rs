use librespot_bridge::events::{translate_event, LibrespotPlayerEvent as Ext, PlayerEventIn as In};
use librespot_bridge::uri::{ItemKind, TrackId};

fn tid(id: u128) -> TrackId {
    TrackId { id, kind: ItemKind::Track }
}

fn turi(id: u128) -> String {
    let digits = "0000000000000000000000";
    assert!(id < 62);
    let ch = b"0123456789abcdefghijklmnopqrstuvwxyzABCDEFGHIJKLMNOPQRSTUVWXYZ"[id as usize];
    format!("spotify:track:{}{}", &digits[..21], ch as char)
}

// one table entry per variant: the translation is exhaustive, keeps every
// field, and renders identities as canonical URIs
#[test]
fn translate_stopped() {
    match translate_event(In::Stopped { play_request_id: 1, track_id: tid(2) }) {
        Ext::Stopped { play_request_id, track_uri } => {
            assert_eq!(play_request_id, 1);
            assert_eq!(track_uri, turi(2));
        }
        _ => panic!("wrong variant"),
    }
}

#[test]
fn translate_loading() {
    match translate_event(In::Loading { play_request_id: 3, track_id: tid(4), position_ms: 5 }) {
        Ext::Loading { play_request_id, track_uri, position_ms } => {
            assert_eq!((play_request_id, position_ms), (3, 5));
            assert_eq!(track_uri, turi(4));
        }
        _ => panic!("wrong variant"),
    }
}

#[test]
fn translate_preloading() {
    match translate_event(In::Preloading { track_id: tid(6) }) {
        Ext::Preloading { track_uri } => assert_eq!(track_uri, turi(6)),
        _ => panic!("wrong variant"),
    }
}

#[test]
fn translate_playing() {
    match translate_event(In::Playing { play_request_id: 7, track_id: tid(8), position_ms: 9 }) {
        Ext::Playing { play_request_id, track_uri, position_ms } => {
            assert_eq!((play_request_id, position_ms), (7, 9));
            assert_eq!(track_uri, turi(8));
        }
        _ => panic!("wrong variant"),
    }
}

#[test]
fn translate_paused() {
    match translate_event(In::Paused { play_request_id: 10, track_id: tid(11), position_ms: 12 }) {
        Ext::Paused { play_request_id, track_uri, position_ms } => {
            assert_eq!((play_request_id, position_ms), (10, 12));
            assert_eq!(track_uri, turi(11));
        }
        _ => panic!("wrong variant"),
    }
}

#[test]
fn translate_time_to_preload() {
    match translate_event(In::TimeToPreloadNextTrack { play_request_id: 13, track_id: tid(14) }) {
        Ext::TimeToPreloadNextTrack { play_request_id, track_uri } => {
            assert_eq!(play_request_id, 13);
            assert_eq!(track_uri, turi(14));
        }
        _ => panic!("wrong variant"),
    }
}

#[test]
fn translate_end_of_track() {
    match translate_event(In::EndOfTrack { play_request_id: 15, track_id: tid(16) }) {
        Ext::EndOfTrack { play_request_id, track_uri } => {
            assert_eq!(play_request_id, 15);
            assert_eq!(track_uri, turi(16));
        }
        _ => panic!("wrong variant"),
    }
}

#[test]
fn translate_unavailable() {
    match translate_event(In::Unavailable { play_request_id: 17, track_id: tid(18) }) {
        Ext::Unavailable { play_request_id, track_uri } => {
            assert_eq!(play_request_id, 17);
            assert_eq!(track_uri, turi(18));
        }
        _ => panic!("wrong variant"),
    }
}

#[test]
fn translate_volume_changed() {
    match translate_event(In::VolumeChanged { volume: 19 }) {
        Ext::VolumeChanged { volume } => assert_eq!(volume, 19),
        _ => panic!("wrong variant"),
    }
}

#[test]
fn translate_position_correction() {
    match translate_event(In::PositionCorrection {
        play_request_id: 20,
        track_id: tid(21),
        position_ms: 22,
    }) {
        Ext::PositionCorrection { play_request_id, track_uri, position_ms } => {
            assert_eq!((play_request_id, position_ms), (20, 22));
            assert_eq!(track_uri, turi(21));
        }
        _ => panic!("wrong variant"),
    }
}

#[test]
fn translate_seeked() {
    match translate_event(In::Seeked { play_request_id: 23, track_id: tid(24), position_ms: 25 }) {
        Ext::Seeked { play_request_id, track_uri, position_ms } => {
            assert_eq!((play_request_id, position_ms), (23, 25));
            assert_eq!(track_uri, turi(24));
        }
        _ => panic!("wrong variant"),
    }
}

#[test]
fn translate_track_changed() {
    match translate_event(In::TrackChanged { track_id: tid(26), duration_ms: 27 }) {
        Ext::TrackChanged { track_uri, duration_ms } => {
            assert_eq!(duration_ms, 27);
            assert_eq!(track_uri, turi(26));
        }
        _ => panic!("wrong variant"),
    }
}

#[test]
fn translate_session_connected() {
    match translate_event(In::SessionConnected {
        connection_id: String::from("c1"),
        user_name: String::from("u1"),
    }) {
        Ext::SessionConnected { connection_id, user_name } => {
            assert_eq!(connection_id, "c1");
            assert_eq!(user_name, "u1");
        }
        _ => panic!("wrong variant"),
    }
}

#[test]
fn translate_session_disconnected() {
    match translate_event(In::SessionDisconnected {
        connection_id: String::from("c2"),
        user_name: String::from("u2"),
    }) {
        Ext::SessionDisconnected { connection_id, user_name } => {
            assert_eq!(connection_id, "c2");
            assert_eq!(user_name, "u2");
        }
        _ => panic!("wrong variant"),
    }
}

#[test]
fn translate_session_client_changed() {
    match translate_event(In::SessionClientChanged {
        client_id: String::from("id"),
        client_name: String::from("name"),
        client_brand_name: String::from("brand"),
        client_model_name: String::from("model"),
    }) {
        Ext::SessionClientChanged {
            client_id,
            client_name,
            client_brand_name,
            client_model_name,
        } => {
            assert_eq!(client_id, "id");
            assert_eq!(client_name, "name");
            assert_eq!(client_brand_name, "brand");
            assert_eq!(client_model_name, "model");
        }
        _ => panic!("wrong variant"),
    }
}

#[test]
fn translate_shuffle_changed() {
    match translate_event(In::ShuffleChanged { shuffle: true }) {
        Ext::ShuffleChanged { shuffle } => assert!(shuffle),
        _ => panic!("wrong variant"),
    }
}

#[test]
fn translate_repeat_changed() {
    match translate_event(In::RepeatChanged { repeat: true }) {
        Ext::RepeatChanged { repeating } => assert!(repeating),
        _ => panic!("wrong variant"),
    }
}

#[test]
fn translate_auto_play_changed() {
    match translate_event(In::AutoPlayChanged { auto_play: true }) {
        Ext::AutoPlayChanged { auto_play } => assert!(auto_play),
        _ => panic!("wrong variant"),
    }
}

#[test]
fn translate_filter_explicit_changed() {
    match translate_event(In::FilterExplicitContentChanged { filter: true }) {
        Ext::FilterExplicitContentChanged { filter } => assert!(filter),
        _ => panic!("wrong variant"),
    }
}

#[test]
fn translate_play_request_id_changed() {
    match translate_event(In::PlayRequestIdChanged { play_request_id: 28 }) {
        Ext::PlayRequestIdChanged { play_request_id } => assert_eq!(play_request_id, 28),
        _ => panic!("wrong variant"),
    }
}

// an event carrying a non-track identity keeps that identity's kind in
// its URI: translation renders, it does not normalize
#[test]
fn translate_keeps_event_item_kind() {
    let ev = In::Preloading { track_id: TrackId { id: 1, kind: ItemKind::Album } };
    match translate_event(ev) {
        Ext::Preloading { track_uri } => {
            assert_eq!(track_uri, "spotify:album:0000000000000000000001");
        }
        _ => panic!("wrong variant"),
    }
}
