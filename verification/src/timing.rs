//! Response timing: the P2 / P2* pair a server announces, its wire form, and
//! the patience a client derives from it.

use crate::constants::{P2_MAX, P2_STAR_MAX};
use vstd::prelude::*;

verus! {

/// Order of the bytes of a multi-byte field.
#[derive(Clone, Copy, Debug, PartialEq, Eq, Structural)]
pub enum ByteOrder {
    Big,
    Little,
    /// The order of the machine the code runs on.
    Native,
}

/// Asks `rsutil::types::ByteOrder::is_little` whether the machine stores the
/// low byte first. The answer depends on the machine, so nothing is claimed
/// of it.
#[verifier::external_body]
fn native_is_little() -> (b: bool) {
    rsutil::types::ByteOrder::Native.is_little()
}

impl ByteOrder {
    /// Whether the low byte comes first.
    pub fn is_little(self) -> (b: bool)
        ensures
            self is Big ==> !b,
            self is Little ==> b,
    {
        match self {
            ByteOrder::Big => false,
            ByteOrder::Little => true,
            ByteOrder::Native => native_is_little(),
        }
    }
}

impl Default for ByteOrder {
    fn default() -> (o: ByteOrder)
        ensures
            o == ByteOrder::Little,
    {
        ByteOrder::Little
    }
}

/// The high byte of a 16-bit value.
pub open spec fn hi(v: u16) -> u8 {
    (v >> 8) as u8
}

/// The low byte of a 16-bit value.
pub open spec fn lo(v: u16) -> u8 {
    (v & 0xFF) as u8
}

/// The 16-bit value with the given high and low byte.
pub open spec fn spec_be16(high: u8, low: u8) -> u16 {
    ((high as u16) << 8) | (low as u16)
}

/// The two bytes of a 16-bit value in the given order.
pub open spec fn u16_bytes(v: u16, little: bool) -> Seq<u8> {
    if little {
        seq![lo(v), hi(v)]
    } else {
        seq![hi(v), lo(v)]
    }
}

/// P2 in milliseconds and P2* in units of 10 ms, as they travel.
#[derive(Clone, Copy, Debug, PartialEq, Eq, Structural)]
pub struct SessionTiming {
    pub p2: u16,
    pub p2_star: u16,
}

/// The smaller of a value and a limit.
pub open spec fn capped(v: int, limit: int) -> int {
    if v > limit {
        limit
    } else {
        v
    }
}

impl SessionTiming {
    /// The timing for the given windows in milliseconds, each cut down to the
    /// longest window the protocol allows.
    pub open spec fn spec_new(p2_ms: u16, p2_star_ms: u32) -> SessionTiming {
        SessionTiming {
            p2: capped(p2_ms as int, P2_MAX as int) as u16,
            p2_star: capped(p2_star_ms as int / 10, P2_STAR_MAX as int) as u16,
        }
    }

    #[verifier::when_used_as_spec(spec_new)]
    pub fn new(p2_ms: u16, p2_star_ms: u32) -> (t: SessionTiming)
        ensures
            t == SessionTiming::spec_new(p2_ms, p2_star_ms),
            t.p2 <= P2_MAX,
            t.p2_star <= P2_STAR_MAX,
    {
        let p2 = if p2_ms > P2_MAX {
            P2_MAX
        } else {
            p2_ms
        };
        let units: u32 = p2_star_ms / 10;
        let p2_star = if units > P2_STAR_MAX as u32 {
            P2_STAR_MAX
        } else {
            units as u16
        };
        SessionTiming { p2, p2_star }
    }

    pub open spec fn spec_p2_ms(&self) -> u64 {
        self.p2 as u64
    }

    pub open spec fn spec_p2_star_ms(&self) -> u64 {
        (self.p2_star as u64 * 10) as u64
    }

    /// P2 in milliseconds.
    #[verifier::when_used_as_spec(spec_p2_ms)]
    pub fn p2_ms(&self) -> (ms: u64)
        ensures
            ms == self.p2,
            ms == self.spec_p2_ms(),
    {
        self.p2 as u64
    }

    /// P2* in milliseconds.
    #[verifier::when_used_as_spec(spec_p2_star_ms)]
    pub fn p2_star_ms(&self) -> (ms: u64)
        ensures
            ms == self.p2_star * 10,
            ms == self.spec_p2_star_ms(),
    {
        self.p2_star as u64 * 10
    }

    /// The four bytes of the timing: P2, then P2*, each in the given order.
    pub open spec fn wire(self, little: bool) -> Seq<u8> {
        u16_bytes(self.p2, little) + u16_bytes(self.p2_star, little)
    }

    /// The four bytes of the timing, low byte first if `little`.
    pub fn to_bytes_with(self, little: bool) -> (out: Vec<u8>)
        ensures
            out@ == self.wire(little),
    {
        let mut out: Vec<u8> = Vec::new();
        let p2_hi = (self.p2 >> 8) as u8;
        let p2_lo = (self.p2 & 0xFF) as u8;
        let p2s_hi = (self.p2_star >> 8) as u8;
        let p2s_lo = (self.p2_star & 0xFF) as u8;
        if little {
            out.push(p2_lo);
            out.push(p2_hi);
            out.push(p2s_lo);
            out.push(p2s_hi);
        } else {
            out.push(p2_hi);
            out.push(p2_lo);
            out.push(p2s_hi);
            out.push(p2s_lo);
        }
        assert(out@ == self.wire(little));
        out
    }

    /// The four bytes of the timing in the given byte order. With `Native`
    /// the machine decides which of the two orders it is.
    pub fn to_bytes(self, order: ByteOrder) -> (out: Vec<u8>)
        ensures
            order is Big ==> out@ == self.wire(false),
            order is Little ==> out@ == self.wire(true),
            out@ == self.wire(false) || out@ == self.wire(true),
    {
        self.to_bytes_with(order.is_little())
    }
}

impl Default for SessionTiming {
    fn default() -> (t: SessionTiming)
        ensures
            t == (SessionTiming { p2: P2_MAX, p2_star: P2_STAR_MAX }),
            t.p2_ms() == 50,
            t.p2_star_ms() == 5000,
    {
        SessionTiming { p2: P2_MAX, p2_star: P2_STAR_MAX }
    }
}

/// The timing a client waits by: the pair the server announced last, and an
/// extra patience added to P2.
#[derive(Clone, Copy, Debug, PartialEq, Eq, Structural)]
pub struct TimingContext {
    pub timing: SessionTiming,
    pub p2_offset: u16,
}

impl TimingContext {
    /// The default timing with the given extra patience, or with none.
    pub open spec fn initial(p2_offset: Option<u16>) -> TimingContext {
        TimingContext {
            timing: SessionTiming { p2: P2_MAX, p2_star: P2_STAR_MAX },
            p2_offset: match p2_offset {
                Some(v) => v,
                None => 0,
            },
        }
    }

    pub fn new(p2_offset: Option<u16>) -> (c: TimingContext)
        ensures
            c == TimingContext::initial(p2_offset),
    {
        let offset = match p2_offset {
            Some(v) => v,
            None => 0,
        };
        TimingContext { timing: SessionTiming::default(), p2_offset: offset }
    }

    /// How long to wait for a response, in milliseconds: P2* while the server
    /// has announced a pending response, else P2 plus the extra patience.
    pub open spec fn spec_timeout_ms(&self, pending: bool) -> u64 {
        if pending {
            self.timing.spec_p2_star_ms()
        } else {
            (self.timing.p2 + self.p2_offset) as u64
        }
    }

    #[verifier::when_used_as_spec(spec_timeout_ms)]
    pub fn timeout_ms(&self, pending: bool) -> (ms: u64)
        ensures
            ms == self.spec_timeout_ms(pending),
            pending ==> ms == self.timing.p2_star * 10,
            !pending ==> ms == self.timing.p2 + self.p2_offset,
    {
        if pending {
            self.timing.p2_star_ms()
        } else {
            self.timing.p2_ms() + self.p2_offset as u64
        }
    }

    /// Takes over a newly announced pair; the extra patience stays.
    pub fn update(&mut self, timing: SessionTiming)
        ensures
            final(self).timing == timing,
            final(self).p2_offset == old(self).p2_offset,
    {
        self.timing = timing;
    }
}

} // verus!
