//! Diagnostics over CAN: the request/response engine of a UDS client and the
//! service dispatcher of a UDS server, stated as pure decisions over plain
//! values. Transport and timers live with the caller; every decision the
//! protocol asks for lives here.

pub mod blob;
pub mod buffer;
pub mod client;
pub mod codec;
pub mod constants;
pub mod error;
pub mod message;
pub mod nrc;
pub mod security;
pub mod server;
pub mod subfunction;
pub mod timing;

pub use client::client_impl::DoCanClient;
pub use constants::{DEFAULT_P2_START_MS, P2_MAX, P2_STAR_MAX};
pub use error::DoCanError;
pub use security::SecurityAlgo;
pub use server::context::{Config, DidSaLevel};
pub use server::server_impl::DoCanServer;
