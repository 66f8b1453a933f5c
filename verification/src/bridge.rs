//! The wrapper's session/player lifecycle state machine and command
//! dispatcher, over model handles.
//!
//! The real session and player are external resources owned by an
//! unverified collaborator; here each is modeled by the data the wrapper
//! decides with: a session is a creation generation plus an
//! authentication flag, a player is the generation of the session it is
//! bound to plus the identities last handed to it, and the event channel
//! is the ordered stream of internal events not yet consumed.
//!
//! Standing invariant: whenever both a session and a player are present,
//! the player is bound to the current session.

use vstd::prelude::*;

use crate::events::LibrespotPlayerEvent;
use crate::events::PlayerEventIn;
use crate::events::event_translates;
use crate::events::translate_event;
use crate::uri::ItemKind;
use crate::uri::TrackId;
use crate::uri::parse_uri;
use crate::uri::spec_parse_uri;

verus! {

/// Caller-supplied construction options; immutable after construction.
#[derive(Clone, Debug)]
pub struct LibrespotOptions {
    pub client_id: String,
    pub audio_cache_path: Option<String>,
}

/// The one recoverable, structured error: an authentication failure.
#[derive(Clone, Debug)]
pub struct LibrespotError {
    pub kind: String,
    pub message: String,
}

/// What one poll of the event stream yields: an event, or the absent
/// sentinel when no player is installed or the stream gave nothing.
pub struct LibrespotPlayerEventResult {
    pub event: Option<LibrespotPlayerEvent>,
}

/// Model of a session: its creation generation and whether it was built
/// from caller credentials.
#[derive(Clone, Copy, PartialEq, Eq, Structural, Debug)]
pub struct SessionHandle {
    pub id: u64,
    pub authenticated: bool,
}

/// Model of a player: the generation of the session it is bound to and
/// the identities last dispatched to it.
#[derive(Clone, Copy, PartialEq, Eq, Structural, Debug)]
pub struct PlayerHandle {
    pub session_id: u64,
    pub loaded: Option<TrackId>,
    pub preloaded: Option<TrackId>,
}

/// Model of the player's event channel: the ordered stream of internal
/// events produced and not yet consumed.
pub struct EventChannel {
    pub pending: Vec<PlayerEventIn>,
}

/// The wrapper: at most one session, at most one player, the player's
/// event channel exactly while the player exists.
pub struct LibrespotCore {
    options: LibrespotOptions,
    session: Option<SessionHandle>,
    player: Option<PlayerHandle>,
    channel: Option<EventChannel>,
    next_session_id: u64,
}

impl LibrespotCore {
    /// Well-formedness: channel exists exactly while the player does;
    /// with both a session and a player present, the player is bound to
    /// the current session; generations stay below the counter.
    pub open spec fn inv(&self) -> bool {
        &&& self.spec_player() is Some <==> self.spec_pending() is Some
        &&& (self.spec_player() matches Some(p) ==> p.session_id < self.spec_next_session_id())
        &&& (self.spec_session() matches Some(s) ==> s.id < self.spec_next_session_id())
        &&& (self.spec_player() matches Some(p) ==> (self.spec_session() matches Some(s)
            ==> p.session_id == s.id))
    }

    pub closed spec fn spec_options(&self) -> LibrespotOptions {
        self.options
    }

    pub closed spec fn spec_session(&self) -> Option<SessionHandle> {
        self.session
    }

    pub closed spec fn spec_player(&self) -> Option<PlayerHandle> {
        self.player
    }

    /// The stream of internal events not yet consumed, if a channel
    /// exists.
    pub closed spec fn spec_pending(&self) -> Option<Seq<PlayerEventIn>> {
        match self.channel {
            Some(c) => Some(c.pending@),
            None => None,
        }
    }

    pub closed spec fn spec_next_session_id(&self) -> u64 {
        self.next_session_id
    }

    /// Construct a wrapper with no session and no player.
    pub fn new(client_id: String, audio_cache_path: Option<String>) -> (r: Self)
        ensures
            r.inv(),
            r.spec_options().client_id == client_id,
            r.spec_options().audio_cache_path == audio_cache_path,
            r.spec_session() is None,
            r.spec_player() is None,
            r.spec_pending() is None,
            r.spec_next_session_id() == 0,
    {
        LibrespotCore {
            options: LibrespotOptions { client_id, audio_cache_path },
            session: None,
            player: None,
            channel: None,
            next_session_id: 0,
        }
    }

    /// Build a fresh, unauthenticated session handle from the options;
    /// does not install it.
    fn create_session(&mut self) -> (s: SessionHandle)
        requires
            old(self).inv(),
            old(self).spec_next_session_id() < u64::MAX,
        ensures
            final(self).inv(),
            s.id == old(self).spec_next_session_id(),
            !s.authenticated,
            final(self).spec_next_session_id() == old(self).spec_next_session_id() + 1,
            final(self).spec_options() == old(self).spec_options(),
            final(self).spec_session() == old(self).spec_session(),
            final(self).spec_player() == old(self).spec_player(),
            final(self).spec_pending() == old(self).spec_pending(),
    {
        let s = SessionHandle { id: self.next_session_id, authenticated: false };
        self.next_session_id = self.next_session_id + 1;
        s
    }

    /// Begin a login: build the candidate authenticated session the
    /// collaborator will connect with the access token. Nothing is
    /// installed; a failed connection leaves the wrapper untouched.
    pub fn login_begin(&mut self, access_token: String) -> (s: SessionHandle)
        requires
            old(self).inv(),
            old(self).spec_next_session_id() < u64::MAX,
        ensures
            final(self).inv(),
            s.id == old(self).spec_next_session_id(),
            s.authenticated,
            final(self).spec_next_session_id() == old(self).spec_next_session_id() + 1,
            final(self).spec_options() == old(self).spec_options(),
            final(self).spec_session() == old(self).spec_session(),
            final(self).spec_player() == old(self).spec_player(),
            final(self).spec_pending() == old(self).spec_pending(),
    {
        let _ = access_token;
        let s = SessionHandle { id: self.next_session_id, authenticated: true };
        self.next_session_id = self.next_session_id + 1;
        s
    }

    /// Finish a login with the collaborator's connection outcome. On
    /// success the candidate session becomes current and a present
    /// player is rebound to it; on failure the error is returned and
    /// the wrapper is left exactly as it was.
    pub fn login_finish(&mut self, session: SessionHandle, outcome: Result<
        (),
        LibrespotError,
    >) -> (r: Result<(), LibrespotError>)
        requires
            old(self).inv(),
            session.id < old(self).spec_next_session_id(),
        ensures
            final(self).inv(),
            final(self).spec_options() == old(self).spec_options(),
            final(self).spec_next_session_id() == old(self).spec_next_session_id(),
            final(self).spec_pending() == old(self).spec_pending(),
            outcome is Ok ==> {
                &&& r is Ok
                &&& final(self).spec_session() == Some(session)
                &&& (old(self).spec_player() matches Some(p) ==> final(self).spec_player() == Some(
                    PlayerHandle { session_id: session.id, ..p },
                ))
                &&& (old(self).spec_player() is None ==> final(self).spec_player() is None)
            },
            outcome matches Err(e) ==> {
                &&& r == Err::<(), LibrespotError>(e)
                &&& final(self).spec_session() == old(self).spec_session()
                &&& final(self).spec_player() == old(self).spec_player()
            },
    {
        match outcome {
            Ok(()) => {
                if let Some(p) = &self.player {
                    self.player = Some(
                        PlayerHandle {
                            session_id: session.id,
                            loaded: p.loaded,
                            preloaded: p.preloaded,
                        },
                    );
                }
                self.session = Some(session);
                Ok(())
            },
            Err(e) => Err(e),
        }
    }

    /// Log out: unconditionally install a fresh unauthenticated session
    /// and rebind a present player to it. Never fails; the wrapper is
    /// always left with a usable session.
    pub fn logout(&mut self)
        requires
            old(self).inv(),
            old(self).spec_next_session_id() < u64::MAX,
        ensures
            final(self).inv(),
            final(self).spec_session() == Some(
                SessionHandle { id: old(self).spec_next_session_id(), authenticated: false },
            ),
            final(self).spec_options() == old(self).spec_options(),
            final(self).spec_pending() == old(self).spec_pending(),
            final(self).spec_next_session_id() == old(self).spec_next_session_id() + 1,
            old(self).spec_player() matches Some(p) ==> final(self).spec_player() == Some(
                PlayerHandle { session_id: old(self).spec_next_session_id(), ..p },
            ),
            old(self).spec_player() is None ==> final(self).spec_player() is None,
    {
        let s = self.create_session();
        if let Some(p) = &self.player {
            self.player = Some(
                PlayerHandle { session_id: s.id, loaded: p.loaded, preloaded: p.preloaded },
            );
        }
        self.session = Some(s);
    }

    /// Initialize the player. Fails closed: a second initialization
    /// returns false and changes nothing. Otherwise the player is bound
    /// to the current session — a fresh default one is created (but not
    /// installed) when none exists — and an empty event channel is
    /// captured with it.
    pub fn player_init(&mut self) -> (r: bool)
        requires
            old(self).inv(),
            old(self).spec_next_session_id() < u64::MAX,
        ensures
            final(self).inv(),
            final(self).spec_options() == old(self).spec_options(),
            final(self).spec_session() == old(self).spec_session(),
            r == (old(self).spec_player() is None),
            old(self).spec_player() is Some ==> *final(self) == *old(self),
            old(self).spec_player() is None && old(self).spec_session() is Some ==> final(self).spec_next_session_id() == old(self).spec_next_session_id(),
            old(self).spec_player() is None && old(self).spec_session() is None ==> final(self).spec_next_session_id() == old(self).spec_next_session_id() + 1,
            old(self).spec_player() is None ==> {
                &&& final(self).spec_player() matches Some(p) && p.loaded is None && p.preloaded
                    is None && (old(self).spec_session() matches Some(s) ==> p.session_id == s.id)
                &&& final(self).spec_pending() == Some(Seq::<PlayerEventIn>::empty())
            },
    {
        if self.player.is_some() {
            return false;
        }
        let sid: u64 = match &self.session {
            Some(s) => s.id,
            None => self.create_session().id,
        };
        self.player = Some(PlayerHandle { session_id: sid, loaded: None, preloaded: None });
        self.channel = Some(EventChannel { pending: Vec::new() });
        proof {
            assert(final(self).spec_pending() == Some(Seq::<PlayerEventIn>::empty()));
        }
        true
    }

    /// Tear the player down: discard the player and its event channel.
    /// A no-op when no player exists.
    pub fn player_deinit(&mut self)
        requires
            old(self).inv(),
        ensures
            final(self).inv(),
            final(self).spec_player() is None,
            final(self).spec_pending() is None,
            final(self).spec_session() == old(self).spec_session(),
            final(self).spec_options() == old(self).spec_options(),
            final(self).spec_next_session_id() == old(self).spec_next_session_id(),
    {
        self.player = None;
        self.channel = None;
    }

    /// The collaborator's side of the event channel: append one produced
    /// internal event. Dropped silently when no player is installed.
    pub fn deliver_event(&mut self, event: PlayerEventIn)
        requires
            old(self).inv(),
        ensures
            final(self).inv(),
            final(self).spec_options() == old(self).spec_options(),
            final(self).spec_session() == old(self).spec_session(),
            final(self).spec_player() == old(self).spec_player(),
            final(self).spec_next_session_id() == old(self).spec_next_session_id(),
            old(self).spec_pending() matches Some(q) ==> final(self).spec_pending() == Some(
                q.push(event),
            ),
            old(self).spec_pending() is None ==> final(self).spec_pending() is None,
    {
        if let Some(c) = &mut self.channel {
            c.pending.push(event);
        }
    }

    /// Poll the event stream: the absent sentinel when no player is
    /// installed or when the stream yields nothing before teardown;
    /// otherwise exactly the oldest pending event, translated. Arrival
    /// order is preserved and nothing is coalesced.
    pub fn player_get_event(&mut self) -> (r: LibrespotPlayerEventResult)
        requires
            old(self).inv(),
        ensures
            final(self).inv(),
            final(self).spec_options() == old(self).spec_options(),
            final(self).spec_session() == old(self).spec_session(),
            final(self).spec_player() == old(self).spec_player(),
            final(self).spec_next_session_id() == old(self).spec_next_session_id(),
            old(self).spec_pending() is None ==> r.event is None && final(self).spec_pending()
                is None,
            old(self).spec_pending() matches Some(q) ==> {
                &&& (q.len() == 0 ==> r.event is None && final(self).spec_pending() == Some(q))
                &&& (q.len() > 0 ==> (r.event matches Some(ev) && event_translates(q[0], ev))
                    && final(self).spec_pending() == Some(q.drop_first()))
            },
    {
        let ev: PlayerEventIn = match &mut self.channel {
            None => {
                return LibrespotPlayerEventResult { event: None };
            },
            Some(c) => {
                if c.pending.len() == 0 {
                    return LibrespotPlayerEventResult { event: None };
                }
                c.pending.remove(0)
            },
        };
        proof {
            assert(old(self).spec_pending() matches Some(q) && q.len() > 0 && ev == q[0] && final(self).spec_pending() == Some(q.drop_first())) by {
                assert(old(self).channel matches Some(c) && c.pending@.len() > 0);
                assert(final(self).channel matches Some(c2) && c2.pending@ =~= old(self).channel->0.pending@.drop_first());
            }
        }
        LibrespotPlayerEventResult { event: Some(translate_event(ev)) }
    }

    /// Dispatch a load command: the track URI is parsed and its kind
    /// forced to `Track` before it reaches the player. Requires an
    /// initialized player and a well-formed URI; both are programming
    /// errors of the caller otherwise.
    pub fn player_load(&mut self, track_uri: String, start_playing: bool, position_ms: u32)
        requires
            old(self).inv(),
            old(self).spec_player() is Some,
            spec_parse_uri(track_uri@) is Some,
        ensures
            final(self).inv(),
            final(self).spec_options() == old(self).spec_options(),
            final(self).spec_session() == old(self).spec_session(),
            final(self).spec_pending() == old(self).spec_pending(),
            final(self).spec_next_session_id() == old(self).spec_next_session_id(),
            final(self).spec_player() == Some(
                PlayerHandle {
                    loaded: Some(
                        TrackId {
                            id: spec_parse_uri(track_uri@)->Some_0.id,
                            kind: ItemKind::Track,
                        },
                    ),
                    ..old(self).spec_player()->Some_0
                },
            ),
    {
        let _ = start_playing;
        let _ = position_ms;
        let parsed = parse_uri(track_uri.as_str());
        let t = match parsed {
            Some(t) => t,
            None => {
                // unreachable: the contract admits well-formed URIs only
                proof {
                    assert(false);
                }
                TrackId { id: 0, kind: ItemKind::Track }
            },
        };
        let id = TrackId { id: t.id, kind: ItemKind::Track };
        if let Some(p) = &self.player {
            self.player = Some(
                PlayerHandle { session_id: p.session_id, loaded: Some(id), preloaded: p.preloaded },
            );
        }
    }

    /// Total form of `player_load`: reports whether the URI was
    /// well-formed instead of requiring it; a malformed URI dispatches
    /// nothing.
    pub fn try_player_load(&mut self, track_uri: String, start_playing: bool, position_ms: u32) -> (r:
        bool)
        requires
            old(self).inv(),
            old(self).spec_player() is Some,
        ensures
            final(self).inv(),
            r == (spec_parse_uri(track_uri@) is Some),
            !r ==> *final(self) == *old(self),
            r ==> final(self).spec_player() == Some(
                PlayerHandle {
                    loaded: Some(
                        TrackId {
                            id: spec_parse_uri(track_uri@)->Some_0.id,
                            kind: ItemKind::Track,
                        },
                    ),
                    ..old(self).spec_player()->Some_0
                },
            ),
            r ==> final(self).spec_session() == old(self).spec_session() && final(self).spec_pending() == old(self).spec_pending() && final(self).spec_options() == old(self).spec_options() && final(self).spec_next_session_id() == old(self).spec_next_session_id(),
    {
        if parse_uri(track_uri.as_str()).is_some() {
            self.player_load(track_uri, start_playing, position_ms);
            true
        } else {
            false
        }
    }

    /// Dispatch a preload hint with the same identifier normalization as
    /// `player_load`.
    pub fn player_preload(&mut self, track_uri: String)
        requires
            old(self).inv(),
            old(self).spec_player() is Some,
            spec_parse_uri(track_uri@) is Some,
        ensures
            final(self).inv(),
            final(self).spec_options() == old(self).spec_options(),
            final(self).spec_session() == old(self).spec_session(),
            final(self).spec_pending() == old(self).spec_pending(),
            final(self).spec_next_session_id() == old(self).spec_next_session_id(),
            final(self).spec_player() == Some(
                PlayerHandle {
                    preloaded: Some(
                        TrackId {
                            id: spec_parse_uri(track_uri@)->Some_0.id,
                            kind: ItemKind::Track,
                        },
                    ),
                    ..old(self).spec_player()->Some_0
                },
            ),
    {
        let parsed = parse_uri(track_uri.as_str());
        let t = match parsed {
            Some(t) => t,
            None => {
                // unreachable: the contract admits well-formed URIs only
                proof {
                    assert(false);
                }
                TrackId { id: 0, kind: ItemKind::Track }
            },
        };
        let id = TrackId { id: t.id, kind: ItemKind::Track };
        if let Some(p) = &self.player {
            self.player = Some(
                PlayerHandle { session_id: p.session_id, loaded: p.loaded, preloaded: Some(id) },
            );
        }
    }

    /// Total form of `player_preload`; a malformed URI dispatches
    /// nothing.
    pub fn try_player_preload(&mut self, track_uri: String) -> (r: bool)
        requires
            old(self).inv(),
            old(self).spec_player() is Some,
        ensures
            final(self).inv(),
            r == (spec_parse_uri(track_uri@) is Some),
            !r ==> *final(self) == *old(self),
            r ==> final(self).spec_player() == Some(
                PlayerHandle {
                    preloaded: Some(
                        TrackId {
                            id: spec_parse_uri(track_uri@)->Some_0.id,
                            kind: ItemKind::Track,
                        },
                    ),
                    ..old(self).spec_player()->Some_0
                },
            ),
            r ==> final(self).spec_session() == old(self).spec_session() && final(self).spec_pending() == old(self).spec_pending() && final(self).spec_options() == old(self).spec_options() && final(self).spec_next_session_id() == old(self).spec_next_session_id(),
    {
        if parse_uri(track_uri.as_str()).is_some() {
            self.player_preload(track_uri);
            true
        } else {
            false
        }
    }

    /// Direct command forwarding; requires an initialized player.
    pub fn player_play(&self)
        requires
            self.inv(),
            self.spec_player() is Some,
    {
    }

    /// Direct command forwarding; requires an initialized player.
    pub fn player_pause(&self)
        requires
            self.inv(),
            self.spec_player() is Some,
    {
    }

    /// Direct command forwarding; requires an initialized player.
    pub fn player_stop(&self)
        requires
            self.inv(),
            self.spec_player() is Some,
    {
    }

    /// Direct command forwarding; requires an initialized player.
    pub fn player_seek(&self, position_ms: u32)
        requires
            self.inv(),
            self.spec_player() is Some,
    {
        let _ = position_ms;
    }

    /// Whether a session is currently installed.
    pub fn has_session(&self) -> (r: bool)
        ensures
            r == (self.spec_session() is Some),
    {
        self.session.is_some()
    }

    /// The currently installed session handle.
    pub fn current_session(&self) -> (r: Option<SessionHandle>)
        ensures
            r == self.spec_session(),
    {
        self.session
    }

    /// Whether a player is currently initialized.
    pub fn has_player(&self) -> (r: bool)
        ensures
            r == (self.spec_player() is Some),
    {
        self.player.is_some()
    }

    /// The currently installed player handle.
    pub fn current_player(&self) -> (r: Option<PlayerHandle>)
        ensures
            r == self.spec_player(),
    {
        self.player
    }

    /// The construction-time client identifier.
    pub fn client_id(&self) -> (r: &String)
        ensures
            r == self.spec_options().client_id,
    {
        &self.options.client_id
    }

    /// The construction-time cache location, if any.
    pub fn audio_cache_path(&self) -> (r: &Option<String>)
        ensures
            r == self.spec_options().audio_cache_path,
    {
        &self.options.audio_cache_path
    }
}

} // verus!
