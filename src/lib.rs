//! A polling WebSocket client core: the connection state shared by the
//! native and the browser-hosted transports, with verified transitions.

pub mod error;
pub mod laws;
pub mod message;
pub mod native;
pub mod socket;
