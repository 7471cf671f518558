//! Messages of the ygopro protocol: their types, their wire structures,
//! how a message is framed on a stream and how its text fields are encoded.
pub mod constants;
pub mod mapped_struct;
pub mod string;
pub mod utils;
pub mod generate;
pub mod ctos;
pub mod stoc;
pub mod game_message;
pub mod sequence;

pub use self::game_message as gm;
pub use crate::srvpru::message as srvpru;
pub use constants::{Direction, MessageType};
pub use utils::{deserialize_struct_by_type, try_get_message_type, Message};
pub use sequence::{MessageSequence, StructSequence};
pub use mapped_struct::{Empty, HostInfo, HostInfoView, HostPacket, HostPacketView, HostRequest, MappedStruct, Struct};


