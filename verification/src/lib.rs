//! Core of a Gotify desktop client: a persistent streaming-connection
//! manager. The library validates endpoint configurations, derives the
//! WebSocket stream URL from a base address, decodes and routes inbound
//! frames, and decides each step of the reconnecting background loop; a thin
//! runner performs the network calls and feeds the observed events back in.

pub mod config;
pub mod encoding;
pub mod router;
pub mod stream;
pub mod supervisor;
pub mod text;
pub mod url;
