//! What a client knows: the payload length of each data identifier, the
//! registered security algorithm and the timing it waits by.

use crate::codec::{DidConfig, MAX_DID_LENGTH};
use crate::security::SecurityAlgo;
use crate::timing::{ByteOrder, SessionTiming, TimingContext};
use vstd::prelude::*;

verus! {

/// The state of a client.
pub struct Context<A: SecurityAlgo> {
    pub timing: TimingContext,
    pub did: DidConfig,
    pub security_algo: Option<A>,
    pub byte_order: ByteOrder,
}

impl<A: SecurityAlgo> Context<A> {
    /// A client that knows no data identifier and no algorithm, waits by the
    /// default timing, and adds `p2_offset` milliseconds to P2.
    pub fn new(byte_order: ByteOrder, p2_offset: Option<u16>) -> (c: Context<A>)
        ensures
            c.timing == TimingContext::initial(p2_offset),
            c.did@ == Map::<u16, usize>::empty(),
            c.security_algo is None,
            c.byte_order == byte_order,
    {
        Context {
            timing: TimingContext::new(p2_offset),
            did: DidConfig::new(),
            security_algo: None,
            byte_order,
        }
    }

    /// The extra patience added to P2, in milliseconds.
    pub fn p2_offset(&self) -> (ms: u64)
        ensures
            ms == self.timing.p2_offset,
    {
        self.timing.p2_offset as u64
    }

    pub fn set_session_timing(&mut self, val: SessionTiming)
        ensures
            final(self).timing.timing == val,
            final(self).timing.p2_offset == old(self).timing.p2_offset,
            final(self).did == old(self).did,
            final(self).security_algo == old(self).security_algo,
            final(self).byte_order == old(self).byte_order,
    {
        self.timing.update(val);
    }

    pub fn get_session_timing(&self) -> (t: SessionTiming)
        ensures
            t == self.timing.timing,
    {
        self.timing.timing
    }

    /// Makes a data identifier known, with the length of its value. A length
    /// beyond `MAX_DID_LENGTH` is not taken. Returns whether it was taken.
    pub fn add_did(&mut self, did: u16, size: usize) -> (taken: bool)
        ensures
            taken == (size <= MAX_DID_LENGTH),
            taken ==> final(self).did@ == old(self).did@.insert(did, size),
            !taken ==> final(self).did@ == old(self).did@,
            final(self).timing == old(self).timing,
            final(self).security_algo == old(self).security_algo,
            final(self).byte_order == old(self).byte_order,
    {
        self.did.insert(did, size)
    }

    /// Forgets a data identifier.
    pub fn remove_did(&mut self, did: u16)
        ensures
            final(self).did@ == old(self).did@.remove(did),
            final(self).timing == old(self).timing,
            final(self).security_algo == old(self).security_algo,
            final(self).byte_order == old(self).byte_order,
    {
        self.did.remove(did);
    }

    /// A copy of the known data identifiers.
    pub fn get_did_cfg(&self) -> (cfg: DidConfig)
        ensures
            cfg@ == self.did@,
    {
        self.did.clone()
    }

    /// Registers the security algorithm, in place of any earlier one.
    pub fn set_security_algo(&mut self, algo: A)
        ensures
            final(self).security_algo == Some(algo),
            final(self).timing == old(self).timing,
            final(self).did == old(self).did,
            final(self).byte_order == old(self).byte_order,
    {
        self.security_algo = Some(algo);
    }

    pub fn get_security_algo(&self) -> (a: &Option<A>)
        ensures
            *a == self.security_algo,
    {
        &self.security_algo
    }
}

} // verus!
