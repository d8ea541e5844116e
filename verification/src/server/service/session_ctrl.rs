//! Answer of DiagnosticSessionControl.

use crate::message::{Request, RequestView, Service};
use crate::nrc;
use crate::security::SecurityAlgo;
use crate::server::context::same_but_session;
use crate::server::server_impl::{
    built, refusal, reply_negative, reply_positive, DoCanServer, Handled, Outcome, outcome_of,
};
use crate::server::session::{after_change, after_keep, SessionState};
use crate::subfunction::SessionType;
use crate::timing::{ByteOrder, SessionTiming};
use vstd::prelude::*;

verus! {

/// Whether a byte order may come out as "low byte first". The native order
/// may come out either way.
pub open spec fn order_allows(order: ByteOrder, little: bool) -> bool {
    (order is Big ==> !little) && (order is Little ==> little)
}

/// What DiagnosticSessionControl answers: the timing of the server, in the
/// byte order `little`, under the session that was asked for.
pub open spec fn session_ctrl_outcome(
    req: RequestView,
    timing: SessionTiming,
    little: bool,
    dids: Map<u16, usize>,
) -> Outcome {
    match req.sub_function {
        None => refusal(Service::SessionCtrl, nrc::GENERAL_REJECT),
        Some(sf) => match SessionType::of_byte(sf.spec_function()) {
            None => refusal(Service::SessionCtrl, nrc::SUB_FUNCTION_NOT_SUPPORTED),
            Some(session) => if sf.suppress_positive {
                Outcome::Silent
            } else {
                built(Service::SessionCtrl, Some(session.byte()), timing.wire(little), dids)
            },
        },
    }
}

/// The session after DiagnosticSessionControl at the moment `now`: the
/// session that was asked for, kept for one keep duration unless it is the
/// default session. A request without a defined session changes nothing.
pub open spec fn session_ctrl_session(old: SessionState, req: RequestView, now: u64) -> SessionState {
    match req.sub_function {
        None => old,
        Some(sf) => match SessionType::of_byte(sf.spec_function()) {
            None => old,
            Some(session) => if session == SessionType::Default {
                after_change(old, session)
            } else {
                after_keep(after_change(old, session), now)
            },
        },
    }
}

impl<A: SecurityAlgo> DoCanServer<A> {
    /// Answers DiagnosticSessionControl with the timing in the byte order
    /// `little`, and enters the session that was asked for.
    pub fn session_ctrl_in_order(&mut self, req: &Request, now: u64, little: bool) -> (r: Handled)
        ensures
            outcome_of(r) == session_ctrl_outcome(
                req@,
                old(self).context.config.timing,
                little,
                old(self).context.config.did_cfg@,
            ),
            final(self).context.session@ == session_ctrl_session(
                old(self).context.session@,
                req@,
                now,
            ),
            same_but_session(old(self).context, final(self).context),
    {
        let service = Service::SessionCtrl;
        match req.sub_function {
            None => reply_negative(service, nrc::GENERAL_REJECT),
            Some(sf) => match SessionType::from_byte(sf.function()) {
                None => reply_negative(service, nrc::SUB_FUNCTION_NOT_SUPPORTED),
                Some(session) => {
                    self.context.session.change(session);
                    if !session.is_default() {
                        self.context.session.keep(now);
                    }
                    if sf.is_suppress_positive() {
                        Ok(None)
                    } else {
                        let data = self.context.config.timing.to_bytes_with(little);
                        reply_positive(
                            service,
                            Some(session.to_byte()),
                            data.as_slice(),
                            &self.context.config.did_cfg,
                        )
                    }
                },
            },
        }
    }

    /// Answers DiagnosticSessionControl with the timing in the configured
    /// byte order. With the native order the machine decides which of the two
    /// orders that is.
    pub fn session_ctrl(&mut self, req: &Request, now: u64) -> (r: Handled)
        ensures
            exists|little: bool|
                order_allows(old(self).context.config.byte_order, little) && outcome_of(r)
                    == session_ctrl_outcome(
                    req@,
                    old(self).context.config.timing,
                    little,
                    old(self).context.config.did_cfg@,
                ),
            final(self).context.session@ == session_ctrl_session(
                old(self).context.session@,
                req@,
                now,
            ),
            same_but_session(old(self).context, final(self).context),
    {
        let little = self.context.config.byte_order.is_little();
        assert(order_allows(self.context.config.byte_order, little));
        self.session_ctrl_in_order(req, now, little)
    }
}

} // verus!
