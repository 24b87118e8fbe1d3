//! A line-oriented chat: the client's state dispatcher and network pump
//! decisions, and the server's per-connection registration and fan-out rules.
pub mod fps;
pub mod logging;
pub mod model;
pub mod pump;
pub mod server;
pub mod text;
pub mod update;
