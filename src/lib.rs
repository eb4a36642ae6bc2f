//! Bridges the cmus player's status socket to a rich-presence sink: parses
//! status responses, derives the activity to publish, and drives the polling
//! and reconnection cycle as a pure state machine.
pub mod activity;
pub mod protocol;
pub mod session;
pub mod socket_path;
pub mod text;

pub use activity::{build, parse_and_build, ActivityPayload, PresenceConfig};
pub use protocol::{
    find_field, is_block_terminator, parse, stem_of, PlaybackStatus, ProtocolError, StatusRecord,
};
pub use session::{Action, Event, LoopError, Phase, PollLoop};
pub use socket_path::socket_path;
pub use text::{chars_of, parse_number};
