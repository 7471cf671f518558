//! A verified core of a ygopro duel server: the wire formats of the ygopro
//! protocol, the room-name grammar that configures a duel, replay and deck
//! files, and the decisions that the server and its plugins take on them.
pub mod ygopro;
pub mod srvpru;
pub mod srvpro;
pub mod text;
