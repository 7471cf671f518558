//! The server: how it frames and dispatches messages, how rooms are named
//! and configured, and what its plugins decide.
pub mod message;
pub mod name_map;
pub mod processor;
pub mod server;
pub mod describe;
pub mod room;
pub mod player;
pub mod i18n;
pub mod utils;
pub mod plugins;
pub mod config;

pub use config::{Configuration, YgoproConfiguration};
pub use processor::{Handler, HandlerCondition, HandlerOccasion, ListenError, Processor, ProcessorError, Registry};
pub use server::Server;
pub use utils::{generate_chat, generate_raw_chat, CommonError};
