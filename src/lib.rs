//! A local rich-presence bridge: packet framing for the native IPC transport,
//! catalog matching for running processes, and the hub that arbitrates which
//! source owns the presence slot.
pub mod codec;
pub mod text;
pub mod detection;
pub mod index;
pub mod cmd;
pub mod json;
pub mod hub;
pub mod process;
pub mod utils;
pub mod ipc;
pub mod websocket;
pub mod server;

pub use server::{RPCConfig, RPCServer};
