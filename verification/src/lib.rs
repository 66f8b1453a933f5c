//! A verified core for a streaming-audio bridge: canonical item URIs,
//! translation of the player's event stream into an external event shape,
//! and the session/player lifecycle state machine of the wrapper.

pub mod bridge;
pub mod events;
pub mod uri;
