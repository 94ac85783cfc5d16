//! VTNet: identity handshake, RAM voice-room presence and message routing
//! for a self-hosted real-time communication server.

pub mod base64_text;
pub mod wire;
pub mod trusted;
pub mod registry;
pub mod auth;
pub mod config;
pub mod identity;
pub mod database;
pub mod rooms;
pub mod server;
pub mod transport;
