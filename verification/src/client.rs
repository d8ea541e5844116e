//! The client side: what to send, how long to wait, and what to make of the
//! answer.

pub mod client_impl;
pub mod context;
pub mod payload;
pub mod trait_impl;
