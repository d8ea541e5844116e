//! Answer of ReadDataByIdentifier.

use crate::blob::bytes_as_slice;
use crate::codec::{codec_read_did, read_did_parsed};
use crate::message::{append_bytes, Request, RequestView, Service};
use crate::nrc;
use crate::security::SecurityAlgo;
use crate::server::context::{did_value, Context};
use crate::server::server_impl::{
    built, refusal, reply_negative, reply_positive, DoCanServer, Handled, Outcome, outcome_of,
};
use crate::timing::{hi, lo};
use bytes::Bytes;
use vstd::prelude::*;

verus! {

/// Whether the value of an identifier may be read at a security level: it may
/// where no level is configured for it, or this one.
pub open spec fn did_readable(levels: Map<u16, u8>, did: u16, sa_level: u8) -> bool {
    levels.contains_key(did) ==> levels[did] == sa_level
}

/// What one identifier adds to the response: the identifier, high byte
/// first, and its value; nothing where it may not be read.
pub open spec fn did_record(did: u16, value: Seq<u8>, levels: Map<u16, u8>, sa_level: u8) -> Seq<
    u8,
> {
    if did_readable(levels, did, sa_level) {
        seq![hi(did), lo(did)] + value
    } else {
        Seq::empty()
    }
}

/// The payload for a list of identifiers: their records in the order of the
/// list; `None` where one of them has no value.
pub open spec fn read_did_body(
    list: Seq<u16>,
    store: Map<u16, Bytes>,
    cfg: Map<u16, usize>,
    levels: Map<u16, u8>,
    sa_level: u8,
) -> Option<Seq<u8>>
    decreases list.len(),
{
    if list.len() == 0 {
        Some(Seq::empty())
    } else {
        match read_did_body(list.drop_last(), store, cfg, levels, sa_level) {
            None => None,
            Some(prefix) => match did_value(store, cfg, list.last()) {
                None => None,
                Some(value) => Some(prefix + did_record(list.last(), value, levels, sa_level)),
            },
        }
    }
}

/// What ReadDataByIdentifier answers: the records of the identifiers asked
/// for; a refusal where one of them has no value or nothing may be read.
pub open spec fn read_did_outcome<A: SecurityAlgo>(ctx: Context<A>, req: RequestView) -> Outcome {
    match read_did_parsed(req.data) {
        None => refusal(Service::ReadDID, nrc::GENERAL_REJECT),
        Some(list) => match read_did_body(
            list,
            ctx.did_st@,
            ctx.config.did_cfg@,
            ctx.config.did_sa_level@,
            ctx.session@.sa_level,
        ) {
            None => refusal(Service::ReadDID, nrc::REQUEST_OUT_OF_RANGE),
            Some(body) => if body.len() == 0 {
                refusal(Service::ReadDID, nrc::REQUEST_OUT_OF_RANGE)
            } else {
                built(Service::ReadDID, None, body, ctx.config.did_cfg@)
            },
        },
    }
}

impl<A: SecurityAlgo> DoCanServer<A> {
    pub fn read_did(&self, req: &Request) -> (r: Handled)
        ensures
            outcome_of(r) == read_did_outcome(self.context, req@),
    {
        let service = Service::ReadDID;
        match codec_read_did(req.data.as_slice(), &self.context.config.did_cfg) {
            Err(_) => reply_negative(service, nrc::GENERAL_REJECT),
            Ok(list) => {
                let sa_level = self.context.session.get_security_access_level();
                let mut data: Vec<u8> = Vec::new();
                let mut missing = false;
                let mut i: usize = 0;
                while i < list.len()
                    invariant
                        i <= list.len(),
                        sa_level == self.context.session@.sa_level,
                        match read_did_body(
                            list@.take(i as int),
                            self.context.did_st@,
                            self.context.config.did_cfg@,
                            self.context.config.did_sa_level@,
                            sa_level,
                        ) {
                            Some(body) => !missing && data@ == body,
                            None => missing,
                        },
                    decreases list.len() - i,
                {
                    let did = list[i];
                    proof {
                        assert(list@.take(i + 1).drop_last() == list@.take(i as int));
                        assert(list@.take(i + 1).last() == did);
                    }
                    if !missing {
                        match self.context.get_static_did(did) {
                            Some(value) => {
                                let readable = match self.context.get_static_did_sa_level(did) {
                                    Some(level) => sa_level == level,
                                    None => true,
                                };
                                if readable {
                                    data.push((did >> 8) as u8);
                                    data.push((did & 0xFF) as u8);
                                    append_bytes(&mut data, bytes_as_slice(&value));
                                }
                            },
                            None => {
                                missing = true;
                            },
                        }
                    }
                    i += 1;
                }
                assert(list@.take(list.len() as int) == list@);
                if missing || data.len() == 0 {
                    reply_negative(service, nrc::REQUEST_OUT_OF_RANGE)
                } else {
                    reply_positive(service, None, data.as_slice(), &self.context.config.did_cfg)
                }
            },
        }
    }
}

} // verus!
