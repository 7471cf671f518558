//! Plugins that other plugins build on.
pub mod api;
pub mod chat_command;
