//! Answer of ECUReset.

use crate::message::{Request, RequestView, Service};
use crate::nrc;
use crate::security::SecurityAlgo;
use crate::server::server_impl::{
    built, refusal, reply_negative, reply_positive, DoCanServer, Handled, Outcome, outcome_of,
};
use crate::server::session::reverted;
use crate::subfunction::{
    spec_sub_function_defined, sub_function_defined, ENABLE_RAPID_POWER_SHUT_DOWN,
};
use bytes::Bytes;
use vstd::prelude::*;

verus! {

/// Seconds a server announces before it powers down.
pub const POWER_DOWN_TIME: u8 = 1;

/// The payload of a positive ECUReset response: the power-down time where
/// rapid power shut-down was enabled, nothing otherwise.
pub open spec fn reset_body(function: u8) -> Seq<u8> {
    if function == ENABLE_RAPID_POWER_SHUT_DOWN {
        seq![POWER_DOWN_TIME]
    } else {
        Seq::empty()
    }
}

/// Whether an ECUReset request names a defined kind of reset.
pub open spec fn reset_accepted(req: RequestView) -> bool {
    req.sub_function matches Some(sf) && spec_sub_function_defined(
        Service::ECUReset,
        sf.spec_function(),
    )
}

/// What ECUReset answers.
pub open spec fn ecu_reset_outcome(req: RequestView, dids: Map<u16, usize>) -> Outcome {
    match req.sub_function {
        None => refusal(Service::ECUReset, nrc::INCORRECT_MESSAGE_LENGTH_OR_INVALID_FORMAT),
        Some(sf) => if !spec_sub_function_defined(Service::ECUReset, sf.spec_function()) {
            refusal(Service::ECUReset, nrc::SUB_FUNCTION_NOT_SUPPORTED)
        } else if sf.suppress_positive {
            Outcome::Silent
        } else {
            built(
                Service::ECUReset,
                Some(sf.spec_function()),
                reset_body(sf.spec_function()),
                dids,
            )
        },
    }
}

impl<A: SecurityAlgo> DoCanServer<A> {
    /// An accepted reset brings the default session back, locks security
    /// access and forgets the dynamically defined identifiers.
    pub fn ecu_reset(&mut self, req: &Request) -> (r: Handled)
        ensures
            outcome_of(r) == ecu_reset_outcome(req@, old(self).context.config.did_cfg@),
            reset_accepted(req@) ==> final(self).context.session@ == reverted(
                old(self).context.session@,
            ) && final(self).context.did_dyn@ == Map::<u16, Bytes>::empty(),
            !reset_accepted(req@) ==> final(self).context.session == old(self).context.session
                && final(self).context.did_dyn == old(self).context.did_dyn,
            final(self).context.config == old(self).context.config,
            final(self).context.did_st == old(self).context.did_st,
            final(self).context.sa_algo == old(self).context.sa_algo,
            final(self).context.sa_ctx == old(self).context.sa_ctx,
    {
        let service = Service::ECUReset;
        match req.sub_function {
            None => reply_negative(service, nrc::INCORRECT_MESSAGE_LENGTH_OR_INVALID_FORMAT),
            Some(sf) => {
                let function = sf.function();
                if !sub_function_defined(service, function) {
                    reply_negative(service, nrc::SUB_FUNCTION_NOT_SUPPORTED)
                } else {
                    self.context.reset();
                    if sf.is_suppress_positive() {
                        Ok(None)
                    } else {
                        let mut data: Vec<u8> = Vec::new();
                        if function == ENABLE_RAPID_POWER_SHUT_DOWN {
                            data.push(POWER_DOWN_TIME);
                        }
                        assert(data@ == reset_body(function));
                        reply_positive(
                            service,
                            Some(function),
                            data.as_slice(),
                            &self.context.config.did_cfg,
                        )
                    }
                }
            },
        }
    }
}

} // verus!
