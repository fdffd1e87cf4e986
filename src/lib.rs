//! A peer-to-peer terminal meeting: the session's decisions, the view
//! model, the envelopes on the wire and the pure media steps.

pub mod messages;
pub mod session;
pub mod text;
pub mod tui;
pub mod wire;
pub mod video;
pub mod audio;
