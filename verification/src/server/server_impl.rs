//! The server: one request in, at most one response out.

use crate::codec::{
    codec_error_kind, codec_error_kind_of, new_response, parse_request, parsed_request_parts,
    request_parse_refused, response_refused, CodecErrorKind, DidConfig,
};
use crate::error::TransportError;
use crate::message::{
    negative_response, positive_response, response_bytes, Request, RequestView, Response,
    ResponseView, Service,
};
use crate::nrc;
use crate::security::SecurityAlgo;
use crate::server::context::{same_but_session, Context};
use crate::server::service::authentication::authentication_outcome;
use crate::server::service::data::{
    clear_diagnostic_info_outcome, io_ctrl_outcome, read_data_by_pid_outcome,
    write_mem_by_addr_outcome,
};
use crate::server::service::ecu_reset::{ecu_reset_outcome, reset_accepted};
use crate::server::service::read_did::read_did_outcome;
use crate::server::service::security_access::security_access_post;
use crate::server::service::session_ctrl::{
    order_allows, session_ctrl_outcome, session_ctrl_session,
};
use crate::server::service::standard::{
    communication_ctrl_outcome, ctrl_dtc_setting_outcome,
    link_ctrl_outcome, routine_ctrl_outcome, tester_present_outcome,
};
use crate::server::service::transfer::{
    request_download_outcome, request_file_transfer_outcome, request_transfer_exit_outcome,
    request_upload_outcome, transfer_data_outcome,
};
use crate::server::service::write_did::{write_did_outcome, write_did_stored};
use crate::server::session::{armed, reverted};
use crate::subfunction::spec_sub_function_defined;
use crate::blob::bytes_contents;
use bytes::Bytes;
use iso14229_1::Iso14229Error;
use vstd::prelude::*;

verus! {

/// A diagnostic server: its state, without the transport it answers on.
pub struct DoCanServer<A: SecurityAlgo> {
    pub context: Context<A>,
}

/// What a service handler decided.
pub enum Outcome {
    /// Nothing is sent: the client asked for silence and the request succeeded.
    Silent,
    /// This response is sent.
    Reply(ResponseView),
    /// The codec refused to build the positive response, with an error of
    /// this variant.
    CodecError(CodecErrorKind),
}

/// What a handler hands back: a response to send, or none, or the error of
/// the codec that refused to build the response.
pub type Handled = Result<Option<Response>, Iso14229Error>;

/// The decision a handler's result stands for.
pub open spec fn outcome_of(r: Handled) -> Outcome {
    match r {
        Ok(Some(resp)) => Outcome::Reply(resp@),
        Ok(None) => Outcome::Silent,
        Err(e) => Outcome::CodecError(codec_error_kind_of(e)),
    }
}

/// The positive answer with the given parts, where the codec builds it.
pub open spec fn built(
    service: Service,
    sub_function: Option<u8>,
    data: Seq<u8>,
    dids: Map<u16, usize>,
) -> Outcome {
    match response_refused(service.byte(), sub_function, data, dids) {
        None => Outcome::Reply(positive_response(service, sub_function, data)),
        Some(kind) => Outcome::CodecError(kind),
    }
}

/// The negative answer with the given code.
pub open spec fn refusal(service: Service, code: u8) -> Outcome {
    Outcome::Reply(negative_response(service, code))
}

pub(crate) fn reply_positive(
    service: Service,
    sub_function: Option<u8>,
    data: &[u8],
    cfg: &DidConfig,
) -> (r: Handled)
    requires
        service != Service::NRC,
    ensures
        outcome_of(r) == built(service, sub_function, data@, cfg@),
{
    match new_response(service, sub_function, data, cfg) {
        Ok(resp) => Ok(Some(resp)),
        Err(e) => Err(e),
    }
}

pub(crate) fn reply_negative(service: Service, code: u8) -> (r: Handled)
    ensures
        outcome_of(r) == refusal(service, code),
{
    Ok(Some(Response::new_negative(service, code)))
}

impl<A: SecurityAlgo> DoCanServer<A> {
    /// A server with the given state.
    pub fn new(context: Context<A>) -> (s: DoCanServer<A>)
        ensures
            s.context == context,
    {
        DoCanServer { context }
    }

    /// Registers the security algorithm, in place of any earlier one.
    pub fn update_security_algo(&mut self, algo: A)
        ensures
            final(self).context.sa_algo == Some(algo),
            final(self).context.config == old(self).context.config,
            final(self).context.did_st == old(self).context.did_st,
            final(self).context.did_dyn == old(self).context.did_dyn,
            final(self).context.sa_ctx == old(self).context.sa_ctx,
            final(self).context.session == old(self).context.session,
    {
        self.context.set_security_algo(algo);
    }
}

/// Bytes to hand to the transport, and the service to answer for once more,
/// negatively, should the transport refuse them.
#[derive(Debug, PartialEq, Eq)]
pub struct Outgoing {
    pub data: Vec<u8>,
    pub retry_for: Option<Service>,
}

/// What leaves the server, with its bytes as a sequence.
#[verifier::ext_equal]
pub struct OutgoingView {
    pub data: Seq<u8>,
    pub retry_for: Option<Service>,
}

impl View for Outgoing {
    type V = OutgoingView;

    open spec fn view(&self) -> OutgoingView {
        OutgoingView { data: self.data@, retry_for: self.retry_for }
    }
}

/// The negative response to a service byte, as bytes; it is not sent twice.
pub open spec fn negative_service_view(service: u8, code: u8) -> OutgoingView {
    OutgoingView { data: seq![0x7Fu8, service, code], retry_for: None }
}

/// A response on its way out. The first attempt names the service to answer
/// for should the transport fail; a second attempt names none.
pub open spec fn transmitted(resp: ResponseView, first: bool) -> OutgoingView {
    OutgoingView {
        data: response_bytes(resp),
        retry_for: if first {
            Some(resp.service)
        } else {
            None
        },
    }
}

/// The response code that answers a refusal of the codec: "incorrect message
/// length" where the length is the cause, "general reject" otherwise.
pub open spec fn spec_uds_error_code(kind: CodecErrorKind) -> u8 {
    match kind {
        CodecErrorKind::InvalidDataLength => nrc::INCORRECT_MESSAGE_LENGTH_OR_INVALID_FORMAT,
        _ => nrc::GENERAL_REJECT,
    }
}

#[verifier::when_used_as_spec(spec_uds_error_code)]
pub fn uds_error_code(kind: CodecErrorKind) -> (code: u8)
    ensures
        code == spec_uds_error_code(kind),
{
    match kind {
        CodecErrorKind::InvalidDataLength => nrc::INCORRECT_MESSAGE_LENGTH_OR_INVALID_FORMAT,
        _ => nrc::GENERAL_REJECT,
    }
}

/// What goes out after a failed transmission: the negative response for the
/// service named by the failed attempt, with the code that stands for the
/// failure; nothing where the attempt names no service or the failure has no
/// code.
pub open spec fn after_transmit_error(failed: OutgoingView, e: TransportError) -> Option<
    OutgoingView,
> {
    match (failed.retry_for, e.spec_nrc()) {
        (Some(service), Some(code)) => Some(transmitted(negative_response(service, code), false)),
        _ => None,
    }
}

/// What one request changes and what it is answered with, service by
/// service.
pub open spec fn handled<A: SecurityAlgo>(
    before: Context<A>,
    after: Context<A>,
    req: RequestView,
    now: u64,
    outcome: Outcome,
) -> bool {
    let dids = before.config.did_cfg@;
    let session = before.session@.session;
    match req.service {
        Service::SessionCtrl => {
            &&& exists|little: bool|
                order_allows(before.config.byte_order, little) && outcome
                    == #[trigger] session_ctrl_outcome(req, before.config.timing, little, dids)
            &&& after.session@ == session_ctrl_session(before.session@, req, now)
            &&& same_but_session(before, after)
        },
        Service::ECUReset => {
            &&& outcome == ecu_reset_outcome(req, dids)
            &&& reset_accepted(req) ==> after.session@ == reverted(before.session@)
                && after.did_dyn@ == Map::<u16, Bytes>::empty()
            &&& !reset_accepted(req) ==> after.session == before.session && after.did_dyn
                == before.did_dyn
            &&& after.config == before.config
            &&& after.did_st == before.did_st
            &&& after.sa_algo == before.sa_algo
            &&& after.sa_ctx == before.sa_ctx
        },
        Service::SecurityAccess => {
            &&& security_access_post(before, after, req, outcome)
            &&& after.config == before.config
            &&& after.did_st == before.did_st
            &&& after.did_dyn == before.did_dyn
            &&& after.sa_algo == before.sa_algo
        },
        Service::WriteDID => {
            &&& outcome == write_did_outcome(before, req)
            &&& match write_did_stored(before, req) {
                Some((did, value)) => {
                    &&& after.did_st@.contains_key(did)
                    &&& bytes_contents(after.did_st@[did]) == value
                    &&& after.did_st@.remove(did) == before.did_st@.remove(did)
                },
                None => after.did_st@ == before.did_st@,
            }
            &&& after.config == before.config
            &&& after.did_dyn == before.did_dyn
            &&& after.sa_algo == before.sa_algo
            &&& after.sa_ctx == before.sa_ctx
            &&& after.session == before.session
        },
        _ => {
            &&& after == before
            &&& match req.service {
                Service::ClearDiagnosticInfo => outcome == clear_diagnostic_info_outcome(req, dids),
                Service::ReadDTCInfo => outcome == refusal(
                    Service::ReadDTCInfo,
                    nrc::SERVICE_NOT_SUPPORTED,
                ),
                Service::ReadDID => outcome == read_did_outcome(before, req),
                Service::ReadMemByAddr => outcome == refusal(
                    Service::ReadMemByAddr,
                    nrc::SERVICE_NOT_SUPPORTED,
                ),
                Service::ReadScalingDID => outcome == refusal(
                    Service::ReadScalingDID,
                    nrc::SERVICE_NOT_SUPPORTED,
                ),
                Service::CommunicationCtrl => outcome == communication_ctrl_outcome(
                    session,
                    req,
                    dids,
                ),
                Service::Authentication => authentication_outcome(req, dids, outcome),
                Service::ReadDataByPeriodId => outcome == read_data_by_pid_outcome(
                    session,
                    req,
                    dids,
                ),
                Service::DynamicalDefineDID => outcome == refusal(
                    Service::DynamicalDefineDID,
                    nrc::SERVICE_NOT_SUPPORTED,
                ),
                Service::IOCtrl => outcome == io_ctrl_outcome(req, dids),
                Service::RoutineCtrl => outcome == routine_ctrl_outcome(req, dids),
                Service::RequestDownload => outcome == request_download_outcome(session, req, dids),
                Service::RequestUpload => outcome == request_upload_outcome(session, req, dids),
                Service::TransferData => outcome == transfer_data_outcome(req, dids),
                Service::RequestTransferExit => outcome == request_transfer_exit_outcome(
                    req,
                    dids,
                ),
                Service::RequestFileTransfer => outcome == request_file_transfer_outcome(session),
                Service::WriteMemByAddr => outcome == write_mem_by_addr_outcome(before, req),
                Service::TesterPresent => outcome == tester_present_outcome(req, dids),
                Service::SecuredDataTrans => outcome == refusal(
                    Service::SecuredDataTrans,
                    nrc::SERVICE_NOT_SUPPORTED,
                ),
                Service::CtrlDTCSetting => outcome == ctrl_dtc_setting_outcome(session, req, dids),
                Service::ResponseOnEvent => outcome == refusal(
                    Service::ResponseOnEvent,
                    nrc::SERVICE_NOT_SUPPORTED,
                ),
                Service::LinkCtrl => outcome == link_ctrl_outcome(session, req, dids),
                _ => outcome == refusal(Service::NRC, nrc::SERVICE_NOT_SUPPORTED),
            }
        },
    }
}

/// A request is answered with silence only where it asked for silence and
/// named a function its service defines.
pub proof fn lemma_silence_is_asked_for<A: SecurityAlgo>(
    before: Context<A>,
    after: Context<A>,
    req: RequestView,
    now: u64,
)
    requires
        handled(before, after, req, now, Outcome::Silent),
    ensures
        req.sub_function matches Some(sf) && sf.suppress_positive && spec_sub_function_defined(
            req.service,
            sf.spec_function(),
        ),
{
}

/// The same request without the wish for silence: the sub-function byte is
/// the function code alone.
pub open spec fn unsuppressed(req: RequestView) -> RequestView {
    RequestView {
        service: req.service,
        sub_function: match req.sub_function {
            Some(sf) => Some(
                crate::message::SubFunction {
                    origin: sf.spec_function(),
                    suppress_positive: false,
                },
            ),
            None => None,
        },
        data: req.data,
    }
}

/// Silence stands for success: where a request is answered with silence, the
/// same request without the wish for silence, in the same state, is not
/// answered with a negative response.
pub proof fn lemma_silence_stands_for_success<A: SecurityAlgo>(
    before: Context<A>,
    after: Context<A>,
    req: RequestView,
    now: u64,
    aloud_after: Context<A>,
    aloud: Outcome,
)
    requires
        handled(before, after, req, now, Outcome::Silent),
        handled(before, aloud_after, unsuppressed(req), now, aloud),
    ensures
        aloud matches Outcome::Reply(resp) ==> !resp.negative,
        aloud !is Silent,
{
}

/// No request leaves a session other than the default session without a
/// deadline: whatever is asked, the fall-back stays armed.
pub proof fn lemma_requests_keep_session_armed<A: SecurityAlgo>(
    before: Context<A>,
    after: Context<A>,
    req: RequestView,
    now: u64,
    outcome: Outcome,
)
    requires
        handled(before, after, req, now, outcome),
        armed(before.session@),
    ensures
        armed(after.session@),
{
}

/// Whether a received message asks for silence on success: it names a
/// service, and the sub-function read from it has the suppress bit set.
pub open spec fn asks_for_silence(data: Seq<u8>) -> bool {
    &&& data.len() > 0
    &&& Service::of_byte(data[0]) matches Some(service)
    &&& parsed_request_parts(service, data.skip(1)).0 matches Some(sf)
    &&& sf.suppress_positive
}

/// What leaves the server for a handler's decision: nothing for silence, the
/// response for a reply, and for a refusal of the codec the negative
/// response whose code stands for the refusal.
pub open spec fn delivered(service: Service, outcome: Outcome) -> Option<OutgoingView> {
    match outcome {
        Outcome::Silent => None,
        Outcome::Reply(resp) => Some(transmitted(resp, true)),
        Outcome::CodecError(kind) => Some(
            transmitted(negative_response(service, spec_uds_error_code(kind)), true),
        ),
    }
}

/// The views of an optional outgoing message.
pub open spec fn outgoing_view(out: Option<Outgoing>) -> Option<OutgoingView> {
    match out {
        Some(o) => Some(o@),
        None => None,
    }
}

/// The bytes of the negative response to a service byte. It is sent once.
pub fn negative_service(service: u8, code: u8) -> (out: Outgoing)
    ensures
        out@ == negative_service_view(service, code),
{
    let mut data: Vec<u8> = Vec::new();
    data.push(0x7F);
    data.push(service);
    data.push(code);
    assert(data@ == seq![0x7Fu8, service, code]);
    Outgoing { data, retry_for: None }
}

/// The negative response that answers a refusal of the codec.
pub fn process_uds_error(service: Service, e: &Iso14229Error) -> (resp: Response)
    ensures
        resp@ == negative_response(service, spec_uds_error_code(codec_error_kind_of(*e))),
{
    Response::new_negative(service, uds_error_code(codec_error_kind(e)))
}

/// The bytes of a response. `first` says whether a failure to transmit them
/// is answered once more.
pub fn transmit_response(resp: &Response, first: bool) -> (out: Outgoing)
    ensures
        out@ == transmitted(resp@, first),
{
    let retry_for = if first {
        Some(resp.service())
    } else {
        None
    };
    Outgoing { data: resp.to_bytes(), retry_for }
}

/// What to send after the transport failed to send `failed`.
pub fn on_transmit_error(failed: &Outgoing, e: &TransportError) -> (out: Option<Outgoing>)
    ensures
        outgoing_view(out) == after_transmit_error(failed@, *e),
{
    match failed.retry_for {
        Some(service) => match e.nrc() {
            Some(code) => Some(transmit_response(&Response::new_negative(service, code), false)),
            None => None,
        },
        None => None,
    }
}

impl<A: SecurityAlgo> DoCanServer<A> {
    /// Hands a request to the handler of its service.
    pub fn dispatch(&mut self, req: &Request, now: u64) -> (r: Handled)
        ensures
            handled(old(self).context, final(self).context, req@, now, outcome_of(r)),
    {
        match req.service {
            Service::SessionCtrl => self.session_ctrl(req, now),
            Service::ECUReset => self.ecu_reset(req),
            Service::ClearDiagnosticInfo => self.clear_diagnostic_info(req),
            Service::ReadDTCInfo => self.read_dtc_info(req),
            Service::ReadDID => self.read_did(req),
            Service::ReadMemByAddr => self.read_mem_by_addr(req),
            Service::ReadScalingDID => self.read_scaling_did(req),
            Service::SecurityAccess => self.security_access(req),
            Service::CommunicationCtrl => self.communication_ctrl(req),
            Service::Authentication => self.authentication(req),
            Service::ReadDataByPeriodId => self.read_data_by_pid(req),
            Service::DynamicalDefineDID => self.dynamically_define_did(req),
            Service::WriteDID => self.write_did(req),
            Service::IOCtrl => self.io_ctrl(req),
            Service::RoutineCtrl => self.routine_ctrl(req),
            Service::RequestDownload => self.request_download(req),
            Service::RequestUpload => self.request_upload(req),
            Service::TransferData => self.transfer_data(req),
            Service::RequestTransferExit => self.request_transfer_exit(req),
            Service::RequestFileTransfer => self.request_file_transfer(req),
            Service::WriteMemByAddr => self.write_mem_by_addr(req),
            Service::TesterPresent => self.tester_present(req),
            Service::SecuredDataTrans => self.secured_data_trans(req),
            Service::CtrlDTCSetting => self.ctrl_dtc_setting(req),
            Service::ResponseOnEvent => self.response_on_event(req),
            Service::LinkCtrl => self.link_ctrl(req),
            Service::NRC => reply_negative(Service::NRC, nrc::SERVICE_NOT_SUPPORTED),
        }
    }

    /// One turn of the server: the bytes of a received message in, the bytes
    /// of at most one response out.
    ///
    /// An empty message is ignored. A first byte that names no service is
    /// answered with "service not supported". A message the codec cannot read
    /// is answered negatively for its service. Every other message goes to
    /// the handler of its service, and is answered unless it asked for
    /// silence and succeeded.
    pub fn server(&mut self, data: &[u8], now: u64) -> (out: Option<Outgoing>)
        ensures
            data@.len() == 0 ==> out is None && final(self).context == old(self).context,
            data@.len() > 0 ==> match Service::of_byte(data@[0]) {
                None => outgoing_view(out) == Some(
                    negative_service_view(data@[0], nrc::SERVICE_NOT_SUPPORTED),
                ) && final(self).context == old(self).context,
                Some(service) => match request_parse_refused(
                    data@[0],
                    data@.skip(1),
                    old(self).context.config.did_cfg@,
                ) {
                    None => {
                        let parts = parsed_request_parts(service, data@.skip(1));
                        let req = RequestView { service, sub_function: parts.0, data: parts.1 };
                        exists|outcome: Outcome|
                            {
                                &&& #[trigger] handled(
                                    old(self).context,
                                    final(self).context,
                                    req,
                                    now,
                                    outcome,
                                )
                                &&& outgoing_view(out) == delivered(service, outcome)
                            }
                    },
                    Some(kind) => {
                        &&& final(self).context == old(self).context
                        &&& outgoing_view(out) == delivered(service, Outcome::CodecError(kind))
                    },
                },
            },
            out is None && data@.len() > 0 ==> asks_for_silence(data@),
    {
        if data.len() == 0 {
            return None;
        }
        match Service::from_byte(data[0]) {
            None => Some(negative_service(data[0], nrc::SERVICE_NOT_SUPPORTED)),
            Some(service) => {
                let rest = vstd::slice::slice_subrange(data, 1, data.len());
                assert(rest@ == data@.skip(1));
                match parse_request(service, rest, &self.context.config.did_cfg) {
                    Ok(req) => {
                        let r = self.dispatch(&req, now);
                        proof {
                            if outcome_of(r) is Silent {
                                lemma_silence_is_asked_for(
                                    old(self).context,
                                    self.context,
                                    req@,
                                    now,
                                );
                            }
                        }
                        let out = match &r {
                            Ok(None) => None,
                            Ok(Some(resp)) => Some(transmit_response(resp, true)),
                            Err(e) => Some(transmit_response(&process_uds_error(service, e), true)),
                        };
                        assert(outgoing_view(out) == delivered(service, outcome_of(r)));
                        out
                    },
                    Err(e) => {
                        let resp = process_uds_error(service, &e);
                        Some(transmit_response(&resp, true))
                    },
                }
            },
        }
    }
}

} // verus!
