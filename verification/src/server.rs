//! The server side: session state, stored data, and the answer to each
//! request.

pub mod context;
pub mod server_impl;
pub mod service;
pub mod session;
pub mod util;
