//! Answer of WriteDataByIdentifier.

use crate::blob::bytes_contents;
use crate::codec::{codec_write_did, write_did_parsed};
use crate::message::{Request, RequestView, Service};
use crate::nrc;
use crate::security::SecurityAlgo;
use crate::server::context::{did_fits, Context};
use crate::server::server_impl::{
    built, refusal, reply_negative, reply_positive, DoCanServer, Handled, Outcome, outcome_of,
};
use crate::subfunction::SessionType;
use crate::timing::{hi, lo, spec_be16};
use vstd::prelude::*;

verus! {

/// Whether writing is allowed: only in the extended session.
pub open spec fn write_session_ok(session: SessionType) -> bool {
    session == SessionType::Extended
}

/// The identifier and value that a WriteDataByIdentifier request stores,
/// where it stores one: the session is the extended one, the security level
/// is the one configured for it, the codec reads the payload, and the value
/// has the configured length.
pub open spec fn write_did_stored<A: SecurityAlgo>(ctx: Context<A>, req: RequestView) -> Option<
    (u16, Seq<u8>),
> {
    if write_session_ok(ctx.session@.session) && ctx.session@.sa_level
        == ctx.config.extend_sa_level {
        match write_did_parsed(req.data, ctx.config.did_cfg@) {
            Some((did, value)) => if did_fits(ctx.config.did_cfg@, did, value.len()) {
                Some((did, value))
            } else {
                None
            },
            None => None,
        }
    } else {
        None
    }
}

/// What WriteDataByIdentifier answers: the identifier comes back where the
/// value was stored.
pub open spec fn write_did_outcome<A: SecurityAlgo>(ctx: Context<A>, req: RequestView) -> Outcome {
    if !write_session_ok(ctx.session@.session) {
        refusal(Service::WriteDID, nrc::SERVICE_NOT_SUPPORTED_IN_ACTIVE_SESSION)
    } else if ctx.session@.sa_level != ctx.config.extend_sa_level {
        refusal(Service::WriteDID, nrc::SECURITY_ACCESS_DENIED)
    } else {
        match write_did_parsed(req.data, ctx.config.did_cfg@) {
            None => refusal(Service::WriteDID, nrc::INCORRECT_MESSAGE_LENGTH_OR_INVALID_FORMAT),
            Some((did, value)) => if did_fits(ctx.config.did_cfg@, did, value.len()) {
                built(Service::WriteDID, None, seq![hi(did), lo(did)], ctx.config.did_cfg@)
            } else {
                refusal(Service::WriteDID, nrc::GENERAL_REJECT)
            },
        }
    }
}

/// A value that is read from a request has the length configured for its
/// identifier: where the session and the security level allow writing and
/// the request is read, the value is stored.
pub proof fn lemma_read_value_is_stored<A: SecurityAlgo>(ctx: Context<A>, req: RequestView)
    requires
        write_session_ok(ctx.session@.session),
        ctx.session@.sa_level == ctx.config.extend_sa_level,
        write_did_parsed(req.data, ctx.config.did_cfg@) is Some,
    ensures
        write_did_stored(ctx, req) == Some(
            (spec_be16(req.data[0], req.data[1]), req.data.skip(2)),
        ),
        write_did_outcome(ctx, req) == built(
            Service::WriteDID,
            None,
            req.data.take(2),
            ctx.config.did_cfg@,
        ),
{
    let high = req.data[0];
    let low = req.data[1];
    assert((((high as u16) << 8) | (low as u16)) >> 8 == high as u16
        && (((high as u16) << 8) | (low as u16)) & 0xFF == low as u16) by (bit_vector);
    assert(seq![hi(spec_be16(high, low)), lo(spec_be16(high, low))] =~= req.data.take(2));
}

impl<A: SecurityAlgo> DoCanServer<A> {
    pub fn write_did(&mut self, req: &Request) -> (r: Handled)
        ensures
            outcome_of(r) == write_did_outcome(old(self).context, req@),
            match write_did_stored(old(self).context, req@) {
                Some((did, value)) => {
                    &&& final(self).context.did_st@.contains_key(did)
                    &&& bytes_contents(final(self).context.did_st@[did]) == value
                    &&& final(self).context.did_st@.remove(did) == old(self).context.did_st@.remove(
                        did,
                    )
                },
                None => final(self).context.did_st@ == old(self).context.did_st@,
            },
            write_did_stored(old(self).context, req@) matches Some((did, value)) ==> {
                &&& req@.data.len() >= 2
                &&& did == spec_be16(req@.data[0], req@.data[1])
                &&& value == req@.data.skip(2)
            },
            final(self).context.config == old(self).context.config,
            final(self).context.did_dyn == old(self).context.did_dyn,
            final(self).context.sa_algo == old(self).context.sa_algo,
            final(self).context.sa_ctx == old(self).context.sa_ctx,
            final(self).context.session == old(self).context.session,
    {
        let service = Service::WriteDID;
        match self.context.session.get_session_type() {
            SessionType::Extended => {
                let sa_level = self.context.session.get_security_access_level();
                if self.context.config.extend_sa_level != sa_level {
                    reply_negative(service, nrc::SECURITY_ACCESS_DENIED)
                } else {
                    match codec_write_did(req.data.as_slice(), &self.context.config.did_cfg) {
                        Ok((did, value)) => {
                            if self.context.set_static_did(did, value.as_slice()) {
                                let mut echo: Vec<u8> = Vec::new();
                                echo.push((did >> 8) as u8);
                                echo.push((did & 0xFF) as u8);
                                assert(echo@ == seq![hi(did), lo(did)]);
                                reply_positive(
                                    service,
                                    None,
                                    echo.as_slice(),
                                    &self.context.config.did_cfg,
                                )
                            } else {
                                reply_negative(service, nrc::GENERAL_REJECT)
                            }
                        },
                        Err(_) => reply_negative(
                            service,
                            nrc::INCORRECT_MESSAGE_LENGTH_OR_INVALID_FORMAT,
                        ),
                    }
                }
            },
            _ => reply_negative(service, nrc::SERVICE_NOT_SUPPORTED_IN_ACTIVE_SESSION),
        }
    }
}

} // verus!
