//! The services that follow the common pattern: a session check where the
//! service asks for one, the sub-function, the payload, and then either
//! silence or the positive response.

use crate::codec::{
    codec_check_communication_ctrl, codec_check_ctrl_dtc_setting, codec_check_link_ctrl,
    codec_new_request, codec_routine_id, request_accepted, request_data_accepted,
    routine_id_parsed,
};
use crate::message::{Request, RequestView, Service, SubFunction};
use crate::nrc;
use crate::security::SecurityAlgo;
use crate::server::server_impl::{
    built, refusal, reply_negative, reply_positive, DoCanServer, Handled, Outcome, outcome_of,
};
use crate::subfunction::{spec_sub_function_defined, sub_function_defined, SessionType};
use crate::timing::{hi, lo};
use vstd::prelude::*;

verus! {

/// The decision of the common pattern, in the order in which the checks are
/// made.
pub open spec fn standard_outcome(
    service: Service,
    session_restricted: bool,
    session: SessionType,
    sub_function: Option<SubFunction>,
    data_ok: bool,
    body: Seq<u8>,
    dids: Map<u16, usize>,
) -> Outcome {
    if session_restricted && session == SessionType::Default {
        refusal(service, nrc::SERVICE_NOT_SUPPORTED_IN_ACTIVE_SESSION)
    } else {
        match sub_function {
            None => refusal(service, nrc::GENERAL_REJECT),
            Some(sf) => if !spec_sub_function_defined(service, sf.spec_function()) {
                refusal(service, nrc::SUB_FUNCTION_NOT_SUPPORTED)
            } else if !data_ok {
                refusal(service, nrc::INCORRECT_MESSAGE_LENGTH_OR_INVALID_FORMAT)
            } else if sf.suppress_positive {
                Outcome::Silent
            } else {
                built(service, Some(sf.spec_function()), body, dids)
            },
        }
    }
}

/// The function code of a request, if it has a sub-function.
pub open spec fn function_of(sub_function: Option<SubFunction>) -> Option<u8> {
    match sub_function {
        Some(sf) => Some(sf.spec_function()),
        None => None,
    }
}

/// What TesterPresent answers: no session check, no payload check, an empty
/// positive response.
pub open spec fn tester_present_outcome(req: RequestView, dids: Map<u16, usize>) -> Outcome {
    standard_outcome(
        Service::TesterPresent,
        false,
        SessionType::Default,
        req.sub_function,
        true,
        Seq::empty(),
        dids,
    )
}

/// What CommunicationControl answers outside the default session: an empty
/// positive response where the codec reads the payload.
pub open spec fn communication_ctrl_outcome(
    session: SessionType,
    req: RequestView,
    dids: Map<u16, usize>,
) -> Outcome {
    standard_outcome(
        Service::CommunicationCtrl,
        true,
        session,
        req.sub_function,
        request_data_accepted(0x28, function_of(req.sub_function), req.data, dids),
        Seq::empty(),
        dids,
    )
}

/// What ControlDTCSetting answers outside the default session.
pub open spec fn ctrl_dtc_setting_outcome(
    session: SessionType,
    req: RequestView,
    dids: Map<u16, usize>,
) -> Outcome {
    standard_outcome(
        Service::CtrlDTCSetting,
        true,
        session,
        req.sub_function,
        request_data_accepted(0x85, function_of(req.sub_function), req.data, dids),
        Seq::empty(),
        dids,
    )
}

/// What LinkControl answers outside the default session.
pub open spec fn link_ctrl_outcome(
    session: SessionType,
    req: RequestView,
    dids: Map<u16, usize>,
) -> Outcome {
    standard_outcome(
        Service::LinkCtrl,
        true,
        session,
        req.sub_function,
        request_data_accepted(0x87, function_of(req.sub_function), req.data, dids),
        Seq::empty(),
        dids,
    )
}

/// The payload of a RoutineControl response: the routine identifier of the
/// request, high byte first.
pub open spec fn routine_body(id: Option<u16>) -> Seq<u8> {
    match id {
        Some(v) => seq![hi(v), lo(v)],
        None => Seq::empty(),
    }
}

/// What RoutineControl answers: the routine identifier comes back.
pub open spec fn routine_ctrl_outcome(req: RequestView, dids: Map<u16, usize>) -> Outcome {
    standard_outcome(
        Service::RoutineCtrl,
        false,
        SessionType::Default,
        req.sub_function,
        routine_id_parsed(function_of(req.sub_function), req.data) is Some,
        routine_body(routine_id_parsed(function_of(req.sub_function), req.data)),
        dids,
    )
}

impl<A: SecurityAlgo> DoCanServer<A> {
    pub fn tester_present(&self, req: &Request) -> (r: Handled)
        ensures
            outcome_of(r) == tester_present_outcome(req@, self.context.config.did_cfg@),
    {
        let service = Service::TesterPresent;
        match req.sub_function {
            None => reply_negative(service, nrc::GENERAL_REJECT),
            Some(sf) => {
                if !sub_function_defined(service, sf.function()) {
                    reply_negative(service, nrc::SUB_FUNCTION_NOT_SUPPORTED)
                } else if sf.is_suppress_positive() {
                    Ok(None)
                } else {
                    let empty: Vec<u8> = Vec::new();
                    reply_positive(
                        service,
                        Some(sf.function()),
                        empty.as_slice(),
                        &self.context.config.did_cfg,
                    )
                }
            },
        }
    }

    pub fn communication_ctrl(&self, req: &Request) -> (r: Handled)
        ensures
            outcome_of(r) == communication_ctrl_outcome(
                self.context.session@.session,
                req@,
                self.context.config.did_cfg@,
            ),
    {
        let service = Service::CommunicationCtrl;
        let cfg = &self.context.config.did_cfg;
        if self.context.session.get_session_type().is_default() {
            return reply_negative(service, nrc::SERVICE_NOT_SUPPORTED_IN_ACTIVE_SESSION);
        }
        match req.sub_function {
            None => reply_negative(service, nrc::GENERAL_REJECT),
            Some(sf) => {
                if !sub_function_defined(service, sf.function()) {
                    reply_negative(service, nrc::SUB_FUNCTION_NOT_SUPPORTED)
                } else if codec_check_communication_ctrl(
                    Some(sf.function()),
                    req.data.as_slice(),
                    cfg,
                ).is_err() {
                    reply_negative(service, nrc::INCORRECT_MESSAGE_LENGTH_OR_INVALID_FORMAT)
                } else if sf.is_suppress_positive() {
                    Ok(None)
                } else {
                    let empty: Vec<u8> = Vec::new();
                    reply_positive(service, Some(sf.function()), empty.as_slice(), cfg)
                }
            },
        }
    }

    pub fn ctrl_dtc_setting(&self, req: &Request) -> (r: Handled)
        ensures
            outcome_of(r) == ctrl_dtc_setting_outcome(
                self.context.session@.session,
                req@,
                self.context.config.did_cfg@,
            ),
    {
        let service = Service::CtrlDTCSetting;
        let cfg = &self.context.config.did_cfg;
        if self.context.session.get_session_type().is_default() {
            return reply_negative(service, nrc::SERVICE_NOT_SUPPORTED_IN_ACTIVE_SESSION);
        }
        match req.sub_function {
            None => reply_negative(service, nrc::GENERAL_REJECT),
            Some(sf) => {
                if !sub_function_defined(service, sf.function()) {
                    reply_negative(service, nrc::SUB_FUNCTION_NOT_SUPPORTED)
                } else if codec_check_ctrl_dtc_setting(
                    Some(sf.function()),
                    req.data.as_slice(),
                    cfg,
                ).is_err() {
                    reply_negative(service, nrc::INCORRECT_MESSAGE_LENGTH_OR_INVALID_FORMAT)
                } else if sf.is_suppress_positive() {
                    Ok(None)
                } else {
                    let empty: Vec<u8> = Vec::new();
                    reply_positive(service, Some(sf.function()), empty.as_slice(), cfg)
                }
            },
        }
    }

    pub fn link_ctrl(&self, req: &Request) -> (r: Handled)
        ensures
            outcome_of(r) == link_ctrl_outcome(
                self.context.session@.session,
                req@,
                self.context.config.did_cfg@,
            ),
    {
        let service = Service::LinkCtrl;
        let cfg = &self.context.config.did_cfg;
        if self.context.session.get_session_type().is_default() {
            return reply_negative(service, nrc::SERVICE_NOT_SUPPORTED_IN_ACTIVE_SESSION);
        }
        match req.sub_function {
            None => reply_negative(service, nrc::GENERAL_REJECT),
            Some(sf) => {
                if !sub_function_defined(service, sf.function()) {
                    reply_negative(service, nrc::SUB_FUNCTION_NOT_SUPPORTED)
                } else if codec_check_link_ctrl(
                    Some(sf.function()),
                    req.data.as_slice(),
                    cfg,
                ).is_err() {
                    reply_negative(service, nrc::INCORRECT_MESSAGE_LENGTH_OR_INVALID_FORMAT)
                } else if sf.is_suppress_positive() {
                    Ok(None)
                } else {
                    let empty: Vec<u8> = Vec::new();
                    reply_positive(service, Some(sf.function()), empty.as_slice(), cfg)
                }
            },
        }
    }

    pub fn routine_ctrl(&self, req: &Request) -> (r: Handled)
        ensures
            outcome_of(r) == routine_ctrl_outcome(req@, self.context.config.did_cfg@),
            outcome_of(r) matches Outcome::Reply(resp) ==> (!resp.negative ==> req@.data.len() >= 2
                && resp.data == req@.data.take(2)),
    {
        let service = Service::RoutineCtrl;
        let cfg = &self.context.config.did_cfg;
        match req.sub_function {
            None => reply_negative(service, nrc::GENERAL_REJECT),
            Some(sf) => {
                if !sub_function_defined(service, sf.function()) {
                    reply_negative(service, nrc::SUB_FUNCTION_NOT_SUPPORTED)
                } else {
                    match codec_routine_id(Some(sf.function()), req.data.as_slice(), cfg) {
                        Err(_) => reply_negative(
                            service,
                            nrc::INCORRECT_MESSAGE_LENGTH_OR_INVALID_FORMAT,
                        ),
                        Ok(id) => {
                            if sf.is_suppress_positive() {
                                Ok(None)
                            } else {
                                let mut body: Vec<u8> = Vec::new();
                                body.push((id >> 8) as u8);
                                body.push((id & 0xFF) as u8);
                                proof {
                                    let high = req@.data[0];
                                    let low = req@.data[1];
                                    assert((((high as u16) << 8) | (low as u16)) >> 8 == high as u16
                                        && (((high as u16) << 8) | (low as u16)) & 0xFF
                                        == low as u16) by (bit_vector);
                                    assert(body@ == routine_body(Some(id)));
                                    assert(body@ =~= req@.data.take(2));
                                }
                                reply_positive(service, Some(sf.function()), body.as_slice(), cfg)
                            }
                        },
                    }
                }
            },
        }
    }
}

} // verus!
