//! Core simulation of a two-player tennis-style arcade match: ball flight and
//! bounce physics, the swing/hit resolver, the serve and rally state machine,
//! the score ledger and the score-driven net offset.
//!
//! Rendering, animation, input devices and the engine scheduler are outside
//! collaborators; this crate holds the rules and the numbers, on plain values.

pub mod ball;
pub mod court;
pub mod fixed;
pub mod net;
pub mod player;
pub mod player_action;
pub mod rally;
pub mod rng;
pub mod score;
