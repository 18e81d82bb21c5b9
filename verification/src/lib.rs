//! Control daemon for a single outbound OpenVPN tunnel: wire protocol,
//! connection life cycle, firewall killswitch orchestration and shutdown.

pub mod api;
pub mod cache;
pub mod cli;
pub mod client;
pub mod config;
pub mod daemon;
pub mod killswitch;
pub mod protocol;
pub mod service;
pub mod text;
pub mod utils;
