//! RustyRoom: the verified core of a Discord-like chat and voice system.
//!
//! The library holds the protocol data types, the binary voice packet format,
//! the jitter buffer, the voice routing state machines of the server and the
//! decisions that the chat server and clients take on each request.

pub mod bytes_be;
pub mod clock;
pub mod net;
pub mod tables;
pub mod text;
pub mod resc;
pub mod core_types;
pub mod protocol;
pub mod server;
pub mod voice_listener;
pub mod voice;
pub mod jitter;
pub mod voice_room;
pub mod voice_server;
pub mod audio;
pub mod tui_state;
pub mod cli;
pub mod laws;
pub mod voice_client;
