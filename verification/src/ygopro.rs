//! The ygopro protocol: constants, wire structures and data files.
pub mod bytes;
pub mod constants;

pub use constants::{
    Attribute, Colors, Duelstage, ErrorMessage, GameMessage, Hint, Linkmarkers, Location, Mode,
    Netplayer, Network, Phase, PlayerChange, Position, Query, Race, Reason, Status, Timing, Type,
};
pub mod data;
pub mod message;
