//! Negative response codes, as the byte that travels in a negative response.

use vstd::prelude::*;

verus! {

pub const POSITIVE: u8 = 0x00;

pub const GENERAL_REJECT: u8 = 0x10;

pub const SERVICE_NOT_SUPPORTED: u8 = 0x11;

pub const SUB_FUNCTION_NOT_SUPPORTED: u8 = 0x12;

pub const INCORRECT_MESSAGE_LENGTH_OR_INVALID_FORMAT: u8 = 0x13;

pub const CONDITIONS_NOT_CORRECT: u8 = 0x22;

pub const REQUEST_OUT_OF_RANGE: u8 = 0x31;

pub const SECURITY_ACCESS_DENIED: u8 = 0x33;

pub const WRONG_BLOCK_SEQUENCE_COUNTER: u8 = 0x73;

/// "Request correctly received, response pending": the server is still working.
pub const RESPONSE_PENDING: u8 = 0x78;

pub const SERVICE_NOT_SUPPORTED_IN_ACTIVE_SESSION: u8 = 0x7F;

} // verus!
