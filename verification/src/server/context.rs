//! What a server knows and remembers: its configuration, the stored value of
//! each data identifier, the pending security challenge and the session.

use crate::blob::{bytes_clone, bytes_contents, bytes_from_slice, bytes_from_vec};
use crate::codec::DidConfig;
use crate::message::Address;
use crate::security::SecurityAlgo;
use crate::server::session::{initial_session, reverted, SessionManager, DEFAULT_KEEP_MS};
use crate::timing::{ByteOrder, SessionTiming};
use bytes::Bytes;
use std::collections::HashMap;
use vstd::prelude::*;

verus! {

broadcast use vstd::std_specs::hash::group_hash_axioms;

/// The security level that reading each data identifier asks for.
pub type DidSaLevel = HashMap<u16, u8>;

/// The configuration of a server.
#[derive(Debug)]
pub struct Config {
    pub address: Address,
    pub timing: SessionTiming,
    /// Security level that writing asks for in the extended session.
    pub extend_sa_level: u8,
    /// Security level that writing asks for in the programming session.
    pub program_sa_level: u8,
    /// Number of bytes of a security seed.
    pub seed_len: usize,
    /// Salt handed to the security algorithm.
    pub sa_salt: Vec<u8>,
    pub did_cfg: DidConfig,
    pub did_sa_level: DidSaLevel,
    pub byte_order: ByteOrder,
}

/// A value of `len` zero bytes.
pub open spec fn zeros(len: nat) -> Seq<u8> {
    Seq::new(len, |i: int| 0u8)
}

/// The value of a data identifier: what was stored for it, or zeros of the
/// configured length where nothing was stored, or nothing where the
/// identifier is not configured.
pub open spec fn did_value(store: Map<u16, Bytes>, cfg: Map<u16, usize>, did: u16) -> Option<
    Seq<u8>,
> {
    if store.contains_key(did) {
        Some(bytes_contents(store[did]))
    } else if cfg.contains_key(did) {
        Some(zeros(cfg[did] as nat))
    } else {
        None
    }
}

/// Whether a value may be stored for a data identifier: the identifier is
/// configured and the value has the configured length.
pub open spec fn did_fits(cfg: Map<u16, usize>, did: u16, len: nat) -> bool {
    cfg.contains_key(did) && cfg[did] == len
}

/// The state of a server.
pub struct Context<A: SecurityAlgo> {
    pub config: Config,
    /// Static data identifiers.
    pub did_st: HashMap<u16, Bytes>,
    /// Dynamically defined data identifiers.
    pub did_dyn: HashMap<u16, Bytes>,
    pub sa_algo: Option<A>,
    /// The level and seed of the one outstanding security challenge.
    pub sa_ctx: Option<(u8, Bytes)>,
    pub session: SessionManager,
}

/// Nothing but the session differs between two states.
pub open spec fn same_but_session<A: SecurityAlgo>(a: Context<A>, b: Context<A>) -> bool {
    &&& a.config == b.config
    &&& a.did_st == b.did_st
    &&& a.did_dyn == b.did_dyn
    &&& a.sa_algo == b.sa_algo
    &&& a.sa_ctx == b.sa_ctx
}

/// `len` zero bytes.
pub fn zero_bytes(len: usize) -> (out: Vec<u8>)
    ensures
        out@ == zeros(len as nat),
{
    let mut out: Vec<u8> = Vec::new();
    let mut i: usize = 0;
    while i < len
        invariant
            i <= len,
            out@ == zeros(i as nat),
        decreases len - i,
    {
        out.push(0);
        i += 1;
        assert(out@ =~= zeros(i as nat));
    }
    out
}

impl<A: SecurityAlgo> Context<A> {
    /// A server in the default session with nothing stored, no algorithm
    /// registered and no challenge outstanding.
    pub fn new(config: Config) -> (c: Context<A>)
        ensures
            c.config == config,
            c.did_st@ == Map::<u16, Bytes>::empty(),
            c.did_dyn@ == Map::<u16, Bytes>::empty(),
            c.sa_algo is None,
            c.sa_ctx is None,
            c.session@ == initial_session(DEFAULT_KEEP_MS),
    {
        Context {
            config,
            did_st: HashMap::new(),
            did_dyn: HashMap::new(),
            sa_algo: None,
            sa_ctx: None,
            session: SessionManager::new(None),
        }
    }

    /// Forgets the dynamically defined identifiers and falls back to the
    /// default session.
    pub fn reset(&mut self)
        ensures
            final(self).did_dyn@ == Map::<u16, Bytes>::empty(),
            final(self).session@ == reverted(old(self).session@),
            final(self).config == old(self).config,
            final(self).did_st == old(self).did_st,
            final(self).sa_algo == old(self).sa_algo,
            final(self).sa_ctx == old(self).sa_ctx,
    {
        self.did_dyn.clear();
        self.session.reset();
    }

    pub fn get_timing(&self) -> (t: &SessionTiming)
        ensures
            *t == self.config.timing,
    {
        &self.config.timing
    }

    pub fn get_did_config(&self) -> (c: &DidConfig)
        ensures
            *c == self.config.did_cfg,
    {
        &self.config.did_cfg
    }

    /// Stores the value of a static data identifier. Returns whether the
    /// value was stored: it is where the identifier is configured with the
    /// length of the value.
    pub fn set_static_did(&mut self, did: u16, data: &[u8]) -> (stored: bool)
        ensures
            stored == did_fits(old(self).config.did_cfg@, did, data@.len()),
            stored ==> final(self).did_st@.contains_key(did) && bytes_contents(
                final(self).did_st@[did],
            ) == data@ && final(self).did_st@.remove(did) == old(self).did_st@.remove(did),
            !stored ==> final(self).did_st@ == old(self).did_st@,
            final(self).config == old(self).config,
            final(self).did_dyn == old(self).did_dyn,
            final(self).sa_algo == old(self).sa_algo,
            final(self).sa_ctx == old(self).sa_ctx,
            final(self).session == old(self).session,
    {
        match self.config.did_cfg.get(did) {
            Some(len) => {
                if len != data.len() {
                    false
                } else {
                    self.did_st.insert(did, bytes_from_slice(data));
                    assert(self.did_st@.remove(did) =~= old(self).did_st@.remove(did));
                    true
                }
            },
            None => false,
        }
    }

    /// The value of a static data identifier.
    pub fn get_static_did(&self, did: u16) -> (v: Option<Bytes>)
        ensures
            match v {
                Some(b) => did_value(self.did_st@, self.config.did_cfg@, did) == Some(
                    bytes_contents(b),
                ),
                None => did_value(self.did_st@, self.config.did_cfg@, did) is None,
            },
    {
        Self::did_get_util(&self.did_st, &self.config.did_cfg, did)
    }

    /// The security level that reading a data identifier asks for, if any.
    pub fn get_static_did_sa_level(&self, did: u16) -> (l: Option<u8>)
        ensures
            l == (if self.config.did_sa_level@.contains_key(did) {
                Some(self.config.did_sa_level@[did])
            } else {
                None
            }),
    {
        match self.config.did_sa_level.get(&did) {
            Some(level) => Some(*level),
            None => None,
        }
    }

    /// Stores the value of a dynamically defined data identifier, under the
    /// same condition as a static one.
    pub fn set_dynamic_did(&mut self, did: u16, data: &[u8]) -> (stored: bool)
        ensures
            stored == did_fits(old(self).config.did_cfg@, did, data@.len()),
            stored ==> final(self).did_dyn@.contains_key(did) && bytes_contents(
                final(self).did_dyn@[did],
            ) == data@ && final(self).did_dyn@.remove(did) == old(self).did_dyn@.remove(did),
            !stored ==> final(self).did_dyn@ == old(self).did_dyn@,
            final(self).config == old(self).config,
            final(self).did_st == old(self).did_st,
            final(self).sa_algo == old(self).sa_algo,
            final(self).sa_ctx == old(self).sa_ctx,
            final(self).session == old(self).session,
    {
        match self.config.did_cfg.get(did) {
            Some(len) => {
                if len != data.len() {
                    false
                } else {
                    self.did_dyn.insert(did, bytes_from_slice(data));
                    assert(self.did_dyn@.remove(did) =~= old(self).did_dyn@.remove(did));
                    true
                }
            },
            None => false,
        }
    }

    /// The value of a dynamically defined data identifier.
    pub fn get_dynamic_did(&self, did: u16) -> (v: Option<Bytes>)
        ensures
            match v {
                Some(b) => did_value(self.did_dyn@, self.config.did_cfg@, did) == Some(
                    bytes_contents(b),
                ),
                None => did_value(self.did_dyn@, self.config.did_cfg@, did) is None,
            },
    {
        Self::did_get_util(&self.did_dyn, &self.config.did_cfg, did)
    }

    pub fn get_security_salt(&self) -> (s: &[u8])
        ensures
            s@ == self.config.sa_salt@,
    {
        self.config.sa_salt.as_slice()
    }

    /// Registers the security algorithm, in place of any earlier one.
    pub fn set_security_algo(&mut self, alg: A)
        ensures
            final(self).sa_algo == Some(alg),
            final(self).config == old(self).config,
            final(self).did_st == old(self).did_st,
            final(self).did_dyn == old(self).did_dyn,
            final(self).sa_ctx == old(self).sa_ctx,
            final(self).session == old(self).session,
    {
        self.sa_algo = Some(alg);
    }

    pub fn get_security_algo(&self) -> (a: &Option<A>)
        ensures
            *a == self.sa_algo,
    {
        &self.sa_algo
    }

    fn did_get_util(store: &HashMap<u16, Bytes>, cfg: &DidConfig, did: u16) -> (v: Option<Bytes>)
        ensures
            match v {
                Some(b) => did_value(store@, cfg@, did) == Some(bytes_contents(b)),
                None => did_value(store@, cfg@, did) is None,
            },
    {
        match store.get(&did) {
            Some(data) => Some(bytes_clone(data)),
            None => {
                match cfg.get(did) {
                    Some(len) => Some(bytes_from_vec(zero_bytes(len))),
                    None => None,
                }
            },
        }
    }
}

} // verus!
