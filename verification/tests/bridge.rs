use librespot_bridge::bridge::{LibrespotCore, LibrespotError};
use librespot_bridge::events::{LibrespotPlayerEvent, PlayerEventIn};
use librespot_bridge::uri::{canonical_track_uri, parse_uri, render_uri, ItemKind, TrackId};

fn uri(kind: &str, digits: &str) -> String {
    assert_eq!(digits.len(), 22);
    format!("spotify:{}:{}", kind, digits)
}

const D1: &str = "0000000000000000000001";

#[test]
fn parse_canonical_track() {
    let t = parse_uri(&uri("track", D1)).expect("canonical track uri parses");
    assert_eq!(t, TrackId { id: 1, kind: ItemKind::Track });
}

#[test]
fn parse_all_known_kinds() {
    for (label, kind) in [
        ("album", ItemKind::Album),
        ("artist", ItemKind::Artist),
        ("episode", ItemKind::Episode),
        ("playlist", ItemKind::Playlist),
        ("show", ItemKind::Show),
        ("track", ItemKind::Track),
        ("unknown", ItemKind::Unknown),
    ] {
        let t = parse_uri(&uri(label, D1)).expect("known kind parses");
        assert_eq!(t.kind, kind);
        assert_eq!(t.id, 1);
    }
}

#[test]
fn parse_foreign_kind_is_unknown() {
    let t = parse_uri(&uri("foo", D1)).expect("foreign kind still parses");
    assert_eq!(t.kind, ItemKind::Unknown);
}

#[test]
fn parse_rejects_malformed() {
    assert_eq!(parse_uri(""), None);
    assert_eq!(parse_uri("spotify:track:short"), None);
    assert_eq!(parse_uri("sptfy:track:0000000000000000000001x"), None);
    // empty kind segment
    assert_eq!(parse_uri("spotify::0000000000000000000001"), None);
    // separator inside the kind segment
    assert_eq!(parse_uri("spotify:tra:ck:0000000000000000000001"), None);
    // invalid digit in the identifier
    assert_eq!(parse_uri(&uri("track", "000000000000000000000!")), None);
    // 22-digit value above the 128-bit range
    assert_eq!(parse_uri(&uri("track", "ZZZZZZZZZZZZZZZZZZZZZZ")), None);
}

#[test]
fn render_parse_roundtrip_extremes() {
    for id in [0u128, 1, 61, 62, u128::MAX] {
        for kind in [ItemKind::Track, ItemKind::Album, ItemKind::Unknown] {
            let t = TrackId { id, kind };
            let s = render_uri(&t);
            assert_eq!(parse_uri(&s), Some(t));
        }
    }
}

#[test]
fn render_zero_is_all_zero_digits() {
    let s = render_uri(&TrackId { id: 0, kind: ItemKind::Track });
    assert_eq!(s, "spotify:track:0000000000000000000000");
}

// the item type of a loaded URI is normalized to "track" while the
// identifier digits survive unchanged
#[test]
fn canonical_track_uri_normalizes_kind() {
    let c = canonical_track_uri(&uri("album", D1)).expect("parseable uri normalizes");
    assert_eq!(c, uri("track", D1));
    // already-canonical input is kept as is
    let c2 = canonical_track_uri(&uri("track", D1)).expect("parseable uri normalizes");
    assert_eq!(c2, uri("track", D1));
    assert_eq!(canonical_track_uri("nonsense"), None);
}

#[test]
fn load_then_event_yields_normalized_uri() {
    let mut core = LibrespotCore::new(String::from("test-client"), None);
    assert!(core.player_init());
    assert!(core.try_player_load(uri("album", D1), true, 0));
    let loaded = core
        .current_player()
        .expect("player installed")
        .loaded
        .expect("track recorded");
    assert_eq!(loaded, TrackId { id: 1, kind: ItemKind::Track });
    core.deliver_event(PlayerEventIn::Playing {
        play_request_id: 7,
        track_id: loaded,
        position_ms: 0,
    });
    let got = core.player_get_event().event.expect("one event pending");
    match got {
        LibrespotPlayerEvent::Playing { play_request_id, track_uri, position_ms } => {
            assert_eq!(play_request_id, 7);
            assert_eq!(position_ms, 0);
            assert_eq!(track_uri, uri("track", D1));
        }
        _ => panic!("wrong variant"),
    }
}

#[test]
fn try_load_rejects_malformed_uri() {
    let mut core = LibrespotCore::new(String::from("test-client"), None);
    assert!(core.player_init());
    assert!(!core.try_player_load(String::from("not-a-uri"), false, 0));
    assert_eq!(core.current_player().unwrap().loaded, None);
    assert!(!core.try_player_preload(String::from("spotify:track:tooshort")));
    assert_eq!(core.current_player().unwrap().preloaded, None);
}

#[test]
fn preload_normalizes_kind_too() {
    let mut core = LibrespotCore::new(String::from("test-client"), None);
    assert!(core.player_init());
    assert!(core.try_player_preload(uri("episode", D1)));
    assert_eq!(
        core.current_player().unwrap().preloaded,
        Some(TrackId { id: 1, kind: ItemKind::Track })
    );
}

#[test]
fn player_init_twice_fails_closed() {
    let mut core = LibrespotCore::new(String::from("test-client"), None);
    assert!(core.player_init());
    core.deliver_event(PlayerEventIn::ShuffleChanged { shuffle: true });
    // the second initialization reports failure and leaves the first
    // player's event stream untouched
    assert!(!core.player_init());
    assert!(core.has_player());
    match core.player_get_event().event {
        Some(LibrespotPlayerEvent::ShuffleChanged { shuffle }) => assert!(shuffle),
        _ => panic!("pending event was lost"),
    }
}

#[test]
fn logout_always_leaves_usable_session() {
    let mut core = LibrespotCore::new(String::from("test-client"), None);
    assert!(!core.has_session());
    core.logout();
    assert!(core.has_session());
    let s1 = core.current_session().unwrap();
    assert!(!s1.authenticated);
    core.logout();
    let s2 = core.current_session().unwrap();
    assert!(core.has_session());
    assert_ne!(s1.id, s2.id, "logout installs a fresh session");
}

#[test]
fn login_success_rebinds_existing_player() {
    let mut core = LibrespotCore::new(String::from("test-client"), None);
    assert!(core.player_init());
    let before = core.current_player().unwrap().session_id;
    let s = core.login_begin(String::from("token"));
    assert!(s.authenticated);
    assert!(core.login_finish(s, Ok(())).is_ok());
    assert_eq!(core.current_session(), Some(s));
    let after = core.current_player().unwrap().session_id;
    assert_eq!(after, s.id, "player is bound to the new session");
    assert_ne!(after, before, "not the prior one");
}

#[test]
fn login_failure_leaves_state_untouched() {
    let mut core = LibrespotCore::new(String::from("test-client"), None);
    core.logout();
    let prior = core.current_session().unwrap();
    let s = core.login_begin(String::from("bad-token"));
    let err = LibrespotError {
        kind: String::from("BadCredentials"),
        message: String::from("authentication failed"),
    };
    let r = core.login_finish(s, Err(err));
    let e = r.expect_err("failed connection surfaces the error");
    assert!(!e.kind.is_empty());
    assert_eq!(e.kind, "BadCredentials");
    assert_eq!(core.current_session(), Some(prior), "previous session untouched");
}

#[test]
fn construct_scenario_bad_token() {
    let mut core = LibrespotCore::new(String::from("test-client"), None);
    assert_eq!(core.client_id(), "test-client");
    let s = core.login_begin(String::from("bad-token"));
    let r = core.login_finish(
        s,
        Err(LibrespotError {
            kind: String::from("BadCredentials"),
            message: String::from("bad-token rejected"),
        }),
    );
    assert!(!r.expect_err("error expected").kind.is_empty());
}

#[test]
fn next_event_absent_without_player() {
    let mut core = LibrespotCore::new(String::from("test-client"), None);
    assert!(core.player_get_event().event.is_none());
}

#[test]
fn next_event_absent_after_deinit() {
    let mut core = LibrespotCore::new(String::from("test-client"), None);
    assert!(core.player_init());
    core.deliver_event(PlayerEventIn::VolumeChanged { volume: 3 });
    core.player_deinit();
    assert!(!core.has_player());
    // the pending stream died with the player
    assert!(core.player_get_event().event.is_none());
    // deinit with no player is a no-op
    core.player_deinit();
    assert!(core.player_get_event().event.is_none());
}

#[test]
fn events_are_delivered_in_arrival_order() {
    let mut core = LibrespotCore::new(String::from("test-client"), None);
    assert!(core.player_init());
    for v in [1u16, 2, 3] {
        core.deliver_event(PlayerEventIn::VolumeChanged { volume: v });
    }
    for v in [1u16, 2, 3] {
        match core.player_get_event().event {
            Some(LibrespotPlayerEvent::VolumeChanged { volume }) => assert_eq!(volume, v),
            _ => panic!("wrong event"),
        }
    }
    assert!(core.player_get_event().event.is_none());
}
