//! The answer of each service.

pub mod authentication;
pub mod data;
pub mod ecu_reset;
pub mod read_did;
pub mod security_access;
pub mod session_ctrl;
pub mod standard;
pub mod transfer;
pub mod write_did;
