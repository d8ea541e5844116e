//! Answers of the remaining data services.

use crate::codec::{
    codec_check_clear_diagnostic_info, codec_check_read_data_by_pid, codec_io_ctrl,
    codec_write_mem_location, io_ctrl_readable, memory_location_length, request_data_accepted,
    write_mem_readable,
};
use crate::message::{append_bytes, Request, RequestView, Service};
use crate::nrc;
use crate::security::SecurityAlgo;
use crate::server::context::Context;
use crate::server::server_impl::{
    built, refusal, reply_negative, reply_positive, DoCanServer, Handled, Outcome, outcome_of,
};
use crate::subfunction::SessionType;
use crate::timing::spec_be16;
use vstd::prelude::*;

verus! {

/// What ClearDiagnosticInformation answers: an empty positive response where
/// the codec reads the request.
pub open spec fn clear_diagnostic_info_outcome(req: RequestView, dids: Map<u16, usize>) -> Outcome {
    if request_data_accepted(0x14, None, req.data, dids) {
        built(Service::ClearDiagnosticInfo, None, Seq::empty(), dids)
    } else {
        refusal(Service::ClearDiagnosticInfo, nrc::INCORRECT_MESSAGE_LENGTH_OR_INVALID_FORMAT)
    }
}

/// What ReadDataByPeriodicIdentifier answers: it is not supported.
pub open spec fn read_data_by_pid_outcome(
    session: SessionType,
    req: RequestView,
    dids: Map<u16, usize>,
) -> Outcome {
    if session == SessionType::Default {
        refusal(Service::ReadDataByPeriodId, nrc::SERVICE_NOT_SUPPORTED_IN_ACTIVE_SESSION)
    } else if request_data_accepted(0x2A, None, req.data, dids) {
        refusal(Service::ReadDataByPeriodId, nrc::SERVICE_NOT_SUPPORTED)
    } else {
        refusal(Service::ReadDataByPeriodId, nrc::INCORRECT_MESSAGE_LENGTH_OR_INVALID_FORMAT)
    }
}

/// The payload of the answer to an InputOutputControl request: identifier,
/// control parameter and state, which are the head of the request's payload.
/// The state is as long as the value configured for the identifier.
pub open spec fn io_ctrl_body(data: Seq<u8>, dids: Map<u16, usize>) -> Seq<u8> {
    data.take(3 + dids[spec_be16(data[0], data[1])])
}

/// What InputOutputControl answers: identifier, control parameter and state
/// of the request come back.
pub open spec fn io_ctrl_outcome(req: RequestView, dids: Map<u16, usize>) -> Outcome {
    if io_ctrl_readable(req.data, dids) {
        built(Service::IOCtrl, None, io_ctrl_body(req.data, dids), dids)
    } else {
        refusal(Service::IOCtrl, nrc::GENERAL_REJECT)
    }
}

/// What WriteMemoryByAddress answers in the extended session at the security
/// level configured for it: the memory location of the request comes back,
/// which is the head of the request's payload.
pub open spec fn write_mem_by_addr_outcome<A: SecurityAlgo>(
    ctx: Context<A>,
    req: RequestView,
) -> Outcome {
    if ctx.session@.session != SessionType::Extended {
        refusal(Service::WriteMemByAddr, nrc::SERVICE_NOT_SUPPORTED_IN_ACTIVE_SESSION)
    } else if ctx.session@.sa_level != ctx.config.extend_sa_level {
        refusal(Service::WriteMemByAddr, nrc::SECURITY_ACCESS_DENIED)
    } else if write_mem_readable(req.data) {
        built(
            Service::WriteMemByAddr,
            None,
            req.data.take(memory_location_length(req.data[0])),
            ctx.config.did_cfg@,
        )
    } else {
        refusal(Service::WriteMemByAddr, nrc::INCORRECT_MESSAGE_LENGTH_OR_INVALID_FORMAT)
    }
}

/// The payload of the answer to an InputOutputControl request with these
/// parts.
fn io_ctrl_payload(did: u16, param: u8, state: &[u8]) -> (out: Vec<u8>)
    ensures
        out@ == seq![crate::timing::hi(did), crate::timing::lo(did), param] + state@,
{
    let mut out: Vec<u8> = Vec::new();
    out.push((did >> 8) as u8);
    out.push((did & 0xFF) as u8);
    out.push(param);
    append_bytes(&mut out, state);
    out
}

impl<A: SecurityAlgo> DoCanServer<A> {
    pub fn clear_diagnostic_info(&self, req: &Request) -> (r: Handled)
        ensures
            outcome_of(r) == clear_diagnostic_info_outcome(req@, self.context.config.did_cfg@),
    {
        let service = Service::ClearDiagnosticInfo;
        let cfg = &self.context.config.did_cfg;
        match codec_check_clear_diagnostic_info(None, req.data.as_slice(), cfg) {
            Ok(_) => {
                let empty: Vec<u8> = Vec::new();
                reply_positive(service, None, empty.as_slice(), cfg)
            },
            Err(_) => reply_negative(service, nrc::INCORRECT_MESSAGE_LENGTH_OR_INVALID_FORMAT),
        }
    }

    pub fn read_data_by_pid(&self, req: &Request) -> (r: Handled)
        ensures
            outcome_of(r) == read_data_by_pid_outcome(
                self.context.session@.session,
                req@,
                self.context.config.did_cfg@,
            ),
    {
        let service = Service::ReadDataByPeriodId;
        if self.context.session.get_session_type().is_default() {
            reply_negative(service, nrc::SERVICE_NOT_SUPPORTED_IN_ACTIVE_SESSION)
        } else {
            match codec_check_read_data_by_pid(
                None,
                req.data.as_slice(),
                &self.context.config.did_cfg,
            ) {
                Ok(_) => reply_negative(service, nrc::SERVICE_NOT_SUPPORTED),
                Err(_) => reply_negative(service, nrc::INCORRECT_MESSAGE_LENGTH_OR_INVALID_FORMAT),
            }
        }
    }

    pub fn io_ctrl(&self, req: &Request) -> (r: Handled)
        ensures
            outcome_of(r) == io_ctrl_outcome(req@, self.context.config.did_cfg@),
    {
        let service = Service::IOCtrl;
        let cfg = &self.context.config.did_cfg;
        match codec_io_ctrl(req.data.as_slice(), cfg) {
            Ok((did, param, state)) => {
                let body = io_ctrl_payload(did, param, state.as_slice());
                proof {
                    let high = req@.data[0];
                    let low = req@.data[1];
                    assert((((high as u16) << 8) | (low as u16)) >> 8 == high as u16
                        && (((high as u16) << 8) | (low as u16)) & 0xFF == low as u16)
                        by (bit_vector);
                    assert(body@ =~= io_ctrl_body(req@.data, cfg@));
                }
                reply_positive(service, None, body.as_slice(), cfg)
            },
            Err(_) => reply_negative(service, nrc::GENERAL_REJECT),
        }
    }

    pub fn write_mem_by_addr(&self, req: &Request) -> (r: Handled)
        ensures
            outcome_of(r) == write_mem_by_addr_outcome(self.context, req@),
    {
        let service = Service::WriteMemByAddr;
        let cfg = &self.context.config.did_cfg;
        match self.context.session.get_session_type() {
            SessionType::Extended => {
                let sa_level = self.context.session.get_security_access_level();
                if self.context.config.extend_sa_level != sa_level {
                    reply_negative(service, nrc::SECURITY_ACCESS_DENIED)
                } else {
                    match codec_write_mem_location(req.data.as_slice(), cfg) {
                        Ok(body) => reply_positive(service, None, body.as_slice(), cfg),
                        Err(_) => reply_negative(
                            service,
                            nrc::INCORRECT_MESSAGE_LENGTH_OR_INVALID_FORMAT,
                        ),
                    }
                }
            },
            _ => reply_negative(service, nrc::SERVICE_NOT_SUPPORTED_IN_ACTIVE_SESSION),
        }
    }

    /// ReadMemoryByAddress is not supported.
    pub fn read_mem_by_addr(&self, req: &Request) -> (r: Handled)
        ensures
            outcome_of(r) == refusal(Service::ReadMemByAddr, nrc::SERVICE_NOT_SUPPORTED),
    {
        reply_negative(Service::ReadMemByAddr, nrc::SERVICE_NOT_SUPPORTED)
    }

    /// ResponseOnEvent is not supported.
    pub fn response_on_event(&self, req: &Request) -> (r: Handled)
        ensures
            outcome_of(r) == refusal(Service::ResponseOnEvent, nrc::SERVICE_NOT_SUPPORTED),
    {
        reply_negative(Service::ResponseOnEvent, nrc::SERVICE_NOT_SUPPORTED)
    }

    /// ReadScalingDataByIdentifier is not supported.
    pub fn read_scaling_did(&self, req: &Request) -> (r: Handled)
        ensures
            outcome_of(r) == refusal(Service::ReadScalingDID, nrc::SERVICE_NOT_SUPPORTED),
    {
        reply_negative(Service::ReadScalingDID, nrc::SERVICE_NOT_SUPPORTED)
    }

    /// SecuredDataTransmission is not supported.
    pub fn secured_data_trans(&self, req: &Request) -> (r: Handled)
        ensures
            outcome_of(r) == refusal(Service::SecuredDataTrans, nrc::SERVICE_NOT_SUPPORTED),
    {
        reply_negative(Service::SecuredDataTrans, nrc::SERVICE_NOT_SUPPORTED)
    }

    /// DynamicallyDefineDataIdentifier is not supported.
    pub fn dynamically_define_did(&self, req: &Request) -> (r: Handled)
        ensures
            outcome_of(r) == refusal(Service::DynamicalDefineDID, nrc::SERVICE_NOT_SUPPORTED),
    {
        reply_negative(Service::DynamicalDefineDID, nrc::SERVICE_NOT_SUPPORTED)
    }

    /// ReadDTCInformation is not supported.
    pub fn read_dtc_info(&self, req: &Request) -> (r: Handled)
        ensures
            outcome_of(r) == refusal(Service::ReadDTCInfo, nrc::SERVICE_NOT_SUPPORTED),
    {
        reply_negative(Service::ReadDTCInfo, nrc::SERVICE_NOT_SUPPORTED)
    }
}

} // verus!
