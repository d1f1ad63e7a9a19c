//! Presentation bridge for a falling-block puzzle game.
//!
//! The rules of the game live in an engine outside this crate. The bridge
//! mirrors what the engine reports (the board with the controlled piece laid
//! over it, the queue of coming pieces, the held piece) into flat buffers of
//! fixed length and fixed layout, which a rendering host reads in place.
//!
//! The bridge never calls the engine. Whoever drives the game asks the
//! engine for its state, hands the answer to one of the three redraws, and
//! forwards to the engine the input event that [`WASMGameMaster::tick`]
//! builds.

pub mod bridge;
pub mod color;
pub mod grid;
pub mod image;
pub mod input;
pub mod laws;
pub mod layout;
pub mod piece;
pub mod projection;

pub use crate::bridge::{BridgeView, ConfigError, WASMGameMaster};
pub use crate::color::{Rgba, CLEAR, OPAQUE};
pub use crate::input::{InputEvent, KeyPress};
pub use crate::piece::{queue_fits_in, Hold, Piece};
pub use crate::projection::Projection;
