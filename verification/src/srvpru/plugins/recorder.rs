//! Plugins that record what happens in a duel.
pub mod deck_recorder;
