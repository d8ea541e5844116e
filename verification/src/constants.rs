use vstd::prelude::*;

verus! {

/// Longest P2 window a server may announce, in milliseconds.
pub const P2_MAX: u16 = 50;

/// Longest P2* window a server may announce, in units of 10 ms.
pub const P2_STAR_MAX: u16 = 500;

/// P2* in milliseconds when nothing else is known.
pub const DEFAULT_P2_START_MS: u64 = 5_000;

/// Bit of a request sub-function byte that asks the server to stay silent on success.
pub const SUPPRESS_POSITIVE: u8 = 0x80;

/// Offset between a request service byte and its positive response byte.
pub const POSITIVE_OFFSET: u8 = 0x40;

} // verus!
