//! The services a client may ask for. Each service has a function that
//! builds its request, and the services whose answer the client itself reads
//! have a function that concludes the exchange.

use crate::client::client_impl::{
    absorbed_timeout, algorithm_required_text, echoes, empty_sub_function_text, next_step,
    sub_func_check, suppress_positive_sr, tester_present_request, ClientAction, ClientEvent,
    DoCanClient, Exchange,
};
use crate::client::payload::{
    clear_dtc_payload, codec_clear_dtc_payload, codec_communication_ctrl_payload,
    codec_download_payload, codec_io_control_payload, codec_periodic_payload,
    codec_upload_payload, codec_write_memory_payload, communication_ctrl_payload,
    io_control_payload, load_payload, made, periodic_payload, write_memory_payload,
};
use crate::codec::{
    built_request, codec_reset_seconds, codec_session_timing, codec_transfer_data, new_request,
    refused_with, request_accepted, request_refused, reset_seconds_decoded,
    session_timing_decoded, transfer_data_decoded, CodecErrorKind,
};
use crate::error::DoCanError;
use crate::message::{
    append_bytes, copy_bytes, spec_sub_function_byte, sub_function_byte, AddressType, Request,
    Response, Service,
};
use crate::security::SecurityAlgo;
use crate::subfunction::SessionType;
use crate::timing::{capped, hi, lo, spec_be16, SessionTiming};
use iso14229_1::Iso14229Error;
use vstd::prelude::*;

verus! {

/// What a client asked for, kept until the answer is in.
#[derive(Clone, Copy, Debug, PartialEq, Eq, Structural)]
pub struct Call {
    pub service: Service,
    /// The function code the answer must echo, for a service that has one.
    pub function: Option<u8>,
    /// Whether the server was asked to stay silent on success.
    pub suppress_positive: bool,
    pub addr_type: AddressType,
}

impl Call {
    /// The sub-function byte of the request: the function code, with the
    /// suppress bit where silence is asked for.
    pub open spec fn sub_function(self) -> Option<u8> {
        match self.function {
            Some(f) => Some(spec_sub_function_byte(f, self.suppress_positive)),
            None => None,
        }
    }
}

/// What the conclusion of an exchange returns for a call.
pub open spec fn concluded(
    call: Call,
    outcome: Result<Response, DoCanError>,
    r: Result<Option<Response>, DoCanError>,
) -> bool {
    if absorbed_timeout(outcome, call.suppress_positive) {
        r matches Ok(None)
    } else {
        match outcome {
            Err(e) => r == Err::<Option<Response>, DoCanError>(e),
            Ok(resp) => match call.function {
                None => r == Ok::<Option<Response>, DoCanError>(Some(resp)),
                Some(f) => match resp@.sub_function {
                    Some(actual) => if actual == f {
                        r == Ok::<Option<Response>, DoCanError>(Some(resp))
                    } else {
                        r == Err::<Option<Response>, DoCanError>(
                            DoCanError::UnexpectedSubFunction {
                                service: call.service,
                                expect: f,
                                actual,
                            },
                        )
                    },
                    None => r matches Err(DoCanError::OtherError(text)) && text@
                        == empty_sub_function_text(call.service),
                },
            },
        }
    }
}

/// The identifiers of a list as bytes, each high byte first.
pub open spec fn did_list_bytes(list: Seq<u16>) -> Seq<u8>
    decreases list.len(),
{
    if list.len() == 0 {
        Seq::empty()
    } else {
        did_list_bytes(list.drop_last()) + seq![hi(list.last()), lo(list.last())]
    }
}

/// Concludes an exchange: absorbs the timeout that follows a request for
/// silence, and checks that the answer echoes the function that was asked
/// for.
pub fn conclude(call: &Call, outcome: Result<Response, DoCanError>) -> (r: Result<
    Option<Response>,
    DoCanError,
>)
    ensures
        concluded(*call, outcome, r),
        r matches Ok(Some(resp)) ==> outcome == Ok::<Response, DoCanError>(resp) && (
        call.function matches Some(f) ==> echoes(resp@, f)),
{
    match suppress_positive_sr(outcome, call.suppress_positive) {
        Err(e) => Err(e),
        Ok(None) => Ok(None),
        Ok(Some(resp)) => match call.function {
            None => Ok(Some(resp)),
            Some(f) => match sub_func_check(&resp, f, call.service) {
                Ok(_) => Ok(Some(resp)),
                Err(e) => Err(e),
            },
        },
    }
}

/// What the conclusion of an exchange returns where silence is no option: a
/// timeout is a failure like any other.
pub open spec fn concluded_response(
    call: Call,
    outcome: Result<Response, DoCanError>,
    r: Result<Response, DoCanError>,
) -> bool {
    match outcome {
        Err(e) => r == Err::<Response, DoCanError>(e),
        Ok(resp) => match call.function {
            None => r == Ok::<Response, DoCanError>(resp),
            Some(f) => match resp@.sub_function {
                Some(actual) => if actual == f {
                    r == Ok::<Response, DoCanError>(resp)
                } else {
                    r == Err::<Response, DoCanError>(
                        DoCanError::UnexpectedSubFunction {
                            service: call.service,
                            expect: f,
                            actual,
                        },
                    )
                },
                None => r matches Err(DoCanError::OtherError(text)) && text@
                    == empty_sub_function_text(call.service),
            },
        },
    }
}

/// Concludes an exchange whose caller wants a response: checks that the
/// answer echoes the function that was asked for, and absorbs nothing.
pub fn conclude_response(call: &Call, outcome: Result<Response, DoCanError>) -> (r: Result<
    Response,
    DoCanError,
>)
    ensures
        concluded_response(*call, outcome, r),
        r matches Ok(resp) ==> outcome == Ok::<Response, DoCanError>(resp) && (
        call.function matches Some(f) ==> echoes(resp@, f)),
{
    match outcome {
        Err(e) => Err(e),
        Ok(resp) => match call.function {
            None => Ok(resp),
            Some(f) => match sub_func_check(&resp, f, call.service) {
                Ok(_) => Ok(resp),
                Err(e) => Err(e),
            },
        },
    }
}

/// The answer a call may read: the response of the exchange, where the
/// conclusion keeps it; `None` where the exchange failed, where a timeout was
/// absorbed, and where the response does not echo the function of the call.
pub open spec fn kept_answer(call: Call, outcome: Result<Response, DoCanError>) -> Option<
    Response,
> {
    if absorbed_timeout(outcome, call.suppress_positive) {
        None
    } else {
        match outcome {
            Err(_) => None,
            Ok(resp) => if call.function matches Some(f) ==> echoes(resp@, f) {
                Some(resp)
            } else {
                None
            },
        }
    }
}

/// What the conclusion of DiagnosticSessionControl returns, and the timing it
/// leaves.
pub open spec fn session_ctrl_concluded(
    call: Call,
    outcome: Result<Response, DoCanError>,
    before: SessionTiming,
    after: SessionTiming,
    r: Result<(), DoCanError>,
) -> bool {
    match kept_answer(call, outcome) {
        Some(resp) => match session_timing_decoded(resp@.sub_function, resp@.data) {
            Some(t) => r is Ok && after == (SessionTiming { p2: t.0, p2_star: t.1 }),
            None => r matches Err(DoCanError::Iso14229Error(_)) && after == before,
        },
        None => {
            &&& after == before
            &&& concluded(
                call,
                outcome,
                match r {
                    Ok(_) => Ok(None),
                    Err(e) => Err(e),
                },
            )
        },
    }
}

/// What the conclusion of ECUReset returns.
pub open spec fn ecu_reset_concluded(
    call: Call,
    outcome: Result<Response, DoCanError>,
    r: Result<Option<u8>, DoCanError>,
) -> bool {
    match kept_answer(call, outcome) {
        Some(resp) => match reset_seconds_decoded(resp@.sub_function, resp@.data) {
            Some(seconds) => r == Ok::<Option<u8>, DoCanError>(seconds),
            None => r matches Err(DoCanError::Iso14229Error(_)),
        },
        None => concluded(
            call,
            outcome,
            match r {
                Ok(_) => Ok(None),
                Err(e) => Err(e),
            },
        ) && !(r matches Ok(Some(_))),
    }
}

/// The response a call ends with answers the service that was asked for
/// and, for a service with a sub-function, echoes the function that was
/// asked for.
pub proof fn lemma_answer_matches_call(
    exchange: Exchange,
    event: ClientEvent,
    dids: Map<u16, usize>,
    action: ClientAction,
    call: Call,
    r: Result<Option<Response>, DoCanError>,
)
    requires
        exchange.service == call.service,
        next_step(exchange, event, dids, action),
        action matches ClientAction::Done(outcome) && concluded(call, outcome, r),
        r matches Ok(Some(_)),
    ensures
        r matches Ok(Some(resp)) && resp@.service == call.service && !resp@.negative && (
        call.function matches Some(f) ==> resp@.sub_function == Some(f)),
{
}

/// What a call returns whose payload the codec puts together from its parts:
/// the refusal of the parts; or, for the payload that was made, the refusal
/// of the request; or the call with its request.
pub open spec fn payload_called(
    call: Call,
    payload: Result<Seq<u8>, CodecErrorKind>,
    dids: Map<u16, usize>,
    r: Result<(Call, Request), DoCanError>,
) -> bool {
    match payload {
        Err(kind) => r matches Err(e) && refused_with(e, Some(kind)),
        Ok(data) => match request_refused(call.service.byte(), call.sub_function(), data, dids) {
            Some(kind) => r matches Err(e) && refused_with(e, Some(kind)),
            None => r matches Ok(p) && p.0 == call && p.1@ == built_request(
                call.service,
                call.sub_function(),
                data,
            ),
        },
    }
}

impl<A: SecurityAlgo> DoCanClient<A> {
    /// The request of a call with the given payload.
    pub fn call_request(&self, call: &Call, data: &[u8]) -> (r: Result<Request, DoCanError>)
        ensures
            r is Ok <==> request_accepted(
                call.service.byte(),
                call.sub_function(),
                data@,
                self.context.did@,
            ),
            r matches Ok(req) ==> req@ == built_request(call.service, call.sub_function(), data@),
            r matches Err(e) ==> refused_with(
                e,
                request_refused(call.service.byte(), call.sub_function(), data@, self.context.did@),
            ),
    {
        let sub_function = match call.function {
            Some(f) => Some(sub_function_byte(f, call.suppress_positive)),
            None => None,
        };
        new_request(call.service, sub_function, data, &self.context.did)
    }

    /// A call with the payload the codec made, or the refusal of its parts.
    fn payload_call(&self, call: Call, payload: Result<Vec<u8>, Iso14229Error>) -> (r: Result<
        (Call, Request),
        DoCanError,
    >)
        ensures
            payload_called(call, made(payload), self.context.did@, r),
    {
        match payload {
            Err(e) => Err(DoCanError::Iso14229Error(e)),
            Ok(data) => match self.call_request(&call, data.as_slice()) {
                Ok(request) => Ok((call, request)),
                Err(e) => Err(e),
            },
        }
    }

    /// A call of a service with a sub-function, and its request.
    pub fn sub_function_call(
        &self,
        service: Service,
        function: u8,
        suppress_positive: bool,
        addr_type: AddressType,
        data: &[u8],
    ) -> (r: Result<(Call, Request), DoCanError>)
        ensures
            r is Ok <==> request_accepted(
                service.byte(),
                Some(spec_sub_function_byte(function, suppress_positive)),
                data@,
                self.context.did@,
            ),
            r matches Ok(p) ==> p.0 == (Call {
                service,
                function: Some(function),
                suppress_positive,
                addr_type,
            }) && p.1@ == built_request(
                service,
                Some(spec_sub_function_byte(function, suppress_positive)),
                data@,
            ),
            r matches Err(e) ==> refused_with(
                e,
                request_refused(
                    service.byte(),
                    Some(spec_sub_function_byte(function, suppress_positive)),
                    data@,
                    self.context.did@,
                ),
            ),
    {
        let call = Call { service, function: Some(function), suppress_positive, addr_type };
        match self.call_request(&call, data) {
            Ok(request) => Ok((call, request)),
            Err(e) => Err(e),
        }
    }

    /// A call of a service without sub-function, and its request.
    pub fn plain_call(&self, service: Service, addr_type: AddressType, data: &[u8]) -> (r: Result<
        (Call, Request),
        DoCanError,
    >)
        ensures
            r is Ok <==> request_accepted(service.byte(), None, data@, self.context.did@),
            r matches Ok(p) ==> p.0 == (Call {
                service,
                function: None,
                suppress_positive: false,
                addr_type,
            }) && p.1@ == built_request(service, None, data@),
            r matches Err(e) ==> refused_with(
                e,
                request_refused(service.byte(), None, data@, self.context.did@),
            ),
    {
        let call = Call { service, function: None, suppress_positive: false, addr_type };
        match self.call_request(&call, data) {
            Ok(request) => Ok((call, request)),
            Err(e) => Err(e),
        }
    }

    /// DiagnosticSessionControl.
    pub fn session_ctrl(
        &self,
        session: SessionType,
        suppress_positive: bool,
        addr_type: AddressType,
    ) -> (r: Result<(Call, Request), DoCanError>)
        ensures
            r is Ok <==> request_accepted(
                0x10,
                Some(spec_sub_function_byte(session.byte(), suppress_positive)),
                Seq::empty(),
                self.context.did@,
            ),
            r matches Ok(p) ==> p.0 == (Call {
                service: Service::SessionCtrl,
                function: Some(session.byte()),
                suppress_positive,
                addr_type,
            }) && p.1@ == built_request(
                Service::SessionCtrl,
                Some(spec_sub_function_byte(session.byte(), suppress_positive)),
                Seq::empty(),
            ),
            r matches Err(e) ==> refused_with(
                e,
                request_refused(
                    0x10,
                    Some(spec_sub_function_byte(session.byte(), suppress_positive)),
                    Seq::empty(),
                    self.context.did@,
                ),
            ),
    {
        let empty: Vec<u8> = Vec::new();
        self.sub_function_call(
            Service::SessionCtrl,
            session.to_byte(),
            suppress_positive,
            addr_type,
            empty.as_slice(),
        )
    }

    /// Concludes DiagnosticSessionControl: the timing the server announced
    /// becomes the timing the client waits by. Without a response, and with a
    /// response that is refused, the timing stays.
    pub fn session_ctrl_done(&mut self, call: &Call, outcome: Result<Response, DoCanError>) -> (r:
        Result<(), DoCanError>)
        ensures
            final(self).context.did == old(self).context.did,
            final(self).context.security_algo == old(self).context.security_algo,
            final(self).context.byte_order == old(self).context.byte_order,
            final(self).context.timing.p2_offset == old(self).context.timing.p2_offset,
            session_ctrl_concluded(
                *call,
                outcome,
                old(self).context.timing.timing,
                final(self).context.timing.timing,
                r,
            ),
            kept_answer(*call, outcome) matches Some(resp) ==> (r is Ok ==> {
                let data = resp@.data;
                &&& data.len() == 4
                &&& final(self).context.timing.timing.p2 == capped(
                    spec_be16(data[0], data[1]) as int,
                    50,
                )
                &&& final(self).context.timing.timing.p2_star == capped(
                    spec_be16(data[2], data[3]) as int,
                    500,
                )
            }),
    {
        match conclude(call, outcome) {
            Err(e) => Err(e),
            Ok(None) => Ok(()),
            Ok(Some(resp)) => {
                match codec_session_timing(resp.sub_function(), resp.raw_data(), &self.context.did) {
                    Err(e) => Err(DoCanError::Iso14229Error(e)),
                    Ok((p2, p2_star)) => {
                        self.context.set_session_timing(SessionTiming { p2, p2_star });
                        Ok(())
                    },
                }
            },
        }
    }

    /// ECUReset.
    pub fn ecu_reset(&self, reset_type: u8, suppress_positive: bool, addr_type: AddressType) -> (r:
        Result<(Call, Request), DoCanError>)
        ensures
            r is Ok <==> request_accepted(
                0x11,
                Some(spec_sub_function_byte(reset_type, suppress_positive)),
                Seq::empty(),
                self.context.did@,
            ),
            r matches Ok(p) ==> p.0 == (Call {
                service: Service::ECUReset,
                function: Some(reset_type),
                suppress_positive,
                addr_type,
            }) && p.1@ == built_request(
                Service::ECUReset,
                Some(spec_sub_function_byte(reset_type, suppress_positive)),
                Seq::empty(),
            ),
            r matches Err(e) ==> refused_with(
                e,
                request_refused(
                    0x11,
                    Some(spec_sub_function_byte(reset_type, suppress_positive)),
                    Seq::empty(),
                    self.context.did@,
                ),
            ),
    {
        let empty: Vec<u8> = Vec::new();
        self.sub_function_call(
            Service::ECUReset,
            reset_type,
            suppress_positive,
            addr_type,
            empty.as_slice(),
        )
    }

    /// Concludes ECUReset. The result is the number of seconds the caller has
    /// to pause before the next request, where the server announced its
    /// power-down time.
    pub fn ecu_reset_done(&self, call: &Call, outcome: Result<Response, DoCanError>) -> (r: Result<
        Option<u8>,
        DoCanError,
    >)
        ensures
            ecu_reset_concluded(*call, outcome, r),
            kept_answer(*call, outcome) matches Some(resp) ==> (r matches Ok(seconds) ==> {
                &&& seconds is Some <==> resp@.sub_function == Some(0x04u8)
                &&& seconds matches Some(s) ==> resp@.data.len() == 1 && s == resp@.data[0]
            }),
    {
        match conclude(call, outcome) {
            Err(e) => Err(e),
            Ok(None) => Ok(None),
            Ok(Some(resp)) => {
                match codec_reset_seconds(resp.sub_function(), resp.raw_data(), &self.context.did) {
                    Err(e) => Err(DoCanError::Iso14229Error(e)),
                    Ok(seconds) => Ok(seconds),
                }
            },
        }
    }

    /// SecurityAccess: a seed request at an odd level, a key at an even one.
    pub fn security_access(&self, level: u8, params: &[u8]) -> (r: Result<
        (Call, Request),
        DoCanError,
    >)
        ensures
            r is Ok <==> request_accepted(0x27, Some(level), params@, self.context.did@),
            r matches Ok(p) ==> p.0 == (Call {
                service: Service::SecurityAccess,
                function: Some(level),
                suppress_positive: false,
                addr_type: AddressType::Physical,
            }) && p.1@ == built_request(Service::SecurityAccess, Some(level), params@),
            r matches Err(e) ==> refused_with(
                e,
                request_refused(0x27, Some(level), params@, self.context.did@),
            ),
    {
        self.sub_function_call(
            Service::SecurityAccess,
            level,
            false,
            AddressType::Physical,
            params,
        )
    }

    /// Concludes an exchange whose answer is the payload as it came: the seed
    /// of SecurityAccess, the memory of ReadMemoryByAddress, the record of
    /// RequestTransferExit.
    pub fn raw_done(call: &Call, outcome: Result<Response, DoCanError>) -> (r: Result<
        Vec<u8>,
        DoCanError,
    >)
        ensures
            match r {
                Ok(data) => outcome matches Ok(resp) && data@ == resp@.data
                    && concluded_response(*call, outcome, Ok(resp)),
                Err(e) => concluded_response(*call, outcome, Err(e)),
            },
    {
        match conclude_response(call, outcome) {
            Err(e) => Err(e),
            Ok(resp) => Ok(copy_bytes(resp.raw_data())),
        }
    }

    /// The question the second round of unlocking puts to the registered
    /// algorithm: the level, the seed the server sent, and the salt, each as
    /// it was given. Without an algorithm there is no question.
    pub fn key_question(&self, level: u8, seed: &[u8], salt: &[u8]) -> (q: Result<
        (u8, Vec<u8>, Vec<u8>),
        DoCanError,
    >)
        ensures
            match q {
                Ok(x) => self.context.security_algo is Some && x.0 == level && x.1@ == seed@
                    && x.2@ == salt@,
                Err(e) => self.context.security_algo is None && (e matches DoCanError::OtherError(
                    text,
                ) && text@ == algorithm_required_text()),
            },
    {
        match &self.context.security_algo {
            None => Err(DoCanError::OtherError("security algorithm required".to_owned())),
            Some(_) => Ok((level, copy_bytes(seed), copy_bytes(salt))),
        }
    }

    /// The second round of unlocking security access: the registered
    /// algorithm is asked the question that `key_question` made, and what it
    /// answers decides as `unlock_key_request_with` says. `Ok(None)` says that
    /// the algorithm asks for no key: the level is open.
    pub fn unlock_key_request(&self, level: u8, seed: &[u8], salt: &[u8]) -> (r: Result<
        Option<(Call, Request)>,
        DoCanError,
    >)
        requires
            level < 0xFF,
        ensures
            self.context.security_algo is None ==> (r matches Err(DoCanError::OtherError(text))
                && text@ == algorithm_required_text()),
            (r matches Err(DoCanError::OtherError(_))) <==> self.context.security_algo is None,
            r matches Ok(Some(p)) ==> p.0 == (Call {
                service: Service::SecurityAccess,
                function: Some((level + 1) as u8),
                suppress_positive: false,
                addr_type: AddressType::Physical,
            }) && p.1@.service == Service::SecurityAccess && p.1@.sub_function == Some(
                crate::message::SubFunction {
                    origin: (level + 1) as u8,
                    suppress_positive: false,
                },
            ),
            r matches Err(e) ==> e is OtherError || e is SecurityAlgoError || e is Iso14229Error,
    {
        match self.key_question(level, seed, salt) {
            Err(e) => Err(e),
            Ok((level, seed, salt)) => {
                let algo = self.context.security_algo.as_ref().unwrap();
                let answer = algo.compute(level, seed.as_slice(), salt.as_slice());
                self.unlock_key_request_with(level, answer)
            },
        }
    }

    /// The second round of unlocking, once the algorithm has spoken: a key
    /// goes out at the next level, no key ends the unlocking, and a failure
    /// of the algorithm is the failure of the unlocking.
    pub fn unlock_key_request_with(&self, level: u8, answer: Result<Option<Vec<u8>>, String>) -> (r:
        Result<Option<(Call, Request)>, DoCanError>)
        requires
            answer matches Ok(Some(_)) ==> level < 0xFF,
        ensures
            match answer {
                Err(text) => r == Err::<Option<(Call, Request)>, DoCanError>(
                    DoCanError::SecurityAlgoError(text),
                ),
                Ok(None) => r matches Ok(None),
                Ok(Some(key)) => if request_accepted(
                    0x27,
                    Some((level + 1) as u8),
                    key@,
                    self.context.did@,
                ) {
                    r matches Ok(Some(p)) && p.0 == (Call {
                        service: Service::SecurityAccess,
                        function: Some((level + 1) as u8),
                        suppress_positive: false,
                        addr_type: AddressType::Physical,
                    }) && p.1@ == built_request(
                        Service::SecurityAccess,
                        Some((level + 1) as u8),
                        key@,
                    )
                } else {
                    r matches Err(DoCanError::Iso14229Error(_))
                },
            },
    {
        match answer {
            Err(text) => Err(DoCanError::SecurityAlgoError(text)),
            Ok(None) => Ok(None),
            Ok(Some(key)) => match self.security_access(level + 1, key.as_slice()) {
                Ok(p) => Ok(Some(p)),
                Err(e) => Err(e),
            },
        }
    }

    /// CommunicationControl of the given communication type, and of the node
    /// where the control type names one.
    pub fn communication_control(
        &self,
        ctrl_type: u8,
        comm_type: u8,
        node_id: Option<u16>,
        suppress_positive: bool,
        addr_type: AddressType,
    ) -> (r: Result<(Call, Request), DoCanError>)
        ensures
            payload_called(
                Call {
                    service: Service::CommunicationCtrl,
                    function: Some(ctrl_type),
                    suppress_positive,
                    addr_type,
                },
                communication_ctrl_payload(ctrl_type, comm_type, node_id),
                self.context.did@,
                r,
            ),
    {
        let call = Call {
            service: Service::CommunicationCtrl,
            function: Some(ctrl_type),
            suppress_positive,
            addr_type,
        };
        self.payload_call(call, codec_communication_ctrl_payload(ctrl_type, comm_type, node_id))
    }

    /// Authentication, with the payload the codec made of the task's data.
    pub fn authentication(&self, auth_task: u8, data: &[u8]) -> (r: Result<
        (Call, Request),
        DoCanError,
    >)
        ensures
            r is Ok <==> request_accepted(0x29, Some(auth_task), data@, self.context.did@),
            r matches Ok(p) ==> p.0 == (Call {
                service: Service::Authentication,
                function: Some(auth_task),
                suppress_positive: false,
                addr_type: AddressType::Physical,
            }) && p.1@ == built_request(Service::Authentication, Some(auth_task), data@),
            r matches Err(e) ==> refused_with(
                e,
                request_refused(0x29, Some(auth_task), data@, self.context.did@),
            ),
    {
        self.sub_function_call(
            Service::Authentication,
            auth_task,
            false,
            AddressType::Physical,
            data,
        )
    }

    /// TesterPresent.
    pub fn tester_present(&self, test_type: u8, suppress_positive: bool, addr_type: AddressType) -> (r:
        Result<(Call, Request), DoCanError>)
        ensures
            r is Ok <==> request_accepted(
                0x3E,
                Some(spec_sub_function_byte(test_type, suppress_positive)),
                Seq::empty(),
                self.context.did@,
            ),
            r matches Ok(p) ==> p.0 == (Call {
                service: Service::TesterPresent,
                function: Some(test_type),
                suppress_positive,
                addr_type,
            }) && p.1@ == built_request(
                Service::TesterPresent,
                Some(spec_sub_function_byte(test_type, suppress_positive)),
                Seq::empty(),
            ),
            r matches Err(e) ==> refused_with(
                e,
                request_refused(
                    0x3E,
                    Some(spec_sub_function_byte(test_type, suppress_positive)),
                    Seq::empty(),
                    self.context.did@,
                ),
            ),
    {
        match tester_present_request(test_type, suppress_positive, &self.context.did) {
            Ok((service, request)) => Ok(
                (Call { service, function: Some(test_type), suppress_positive, addr_type }, request),
            ),
            Err(e) => Err(e),
        }
    }

    /// SecuredDataTransmission, with the payload the codec made of the
    /// secured message.
    pub fn secured_data_transmit(&self, data: &[u8]) -> (r: Result<(Call, Request), DoCanError>)
        ensures
            r is Ok <==> request_accepted(0x84, None, data@, self.context.did@),
            r matches Ok(p) ==> p.0 == (Call {
                service: Service::SecuredDataTrans,
                function: None,
                suppress_positive: false,
                addr_type: AddressType::Physical,
            }) && p.1@ == built_request(Service::SecuredDataTrans, None, data@),
            r matches Err(e) ==> refused_with(
                e,
                request_refused(0x84, None, data@, self.context.did@),
            ),
    {
        self.plain_call(Service::SecuredDataTrans, AddressType::Physical, data)
    }

    /// ControlDTCSetting.
    pub fn control_dtc_setting(&self, setting_type: u8, parameter: &[u8], suppress_positive: bool) -> (r:
        Result<(Call, Request), DoCanError>)
        ensures
            r is Ok <==> request_accepted(
                0x85,
                Some(spec_sub_function_byte(setting_type, suppress_positive)),
                parameter@,
                self.context.did@,
            ),
            r matches Ok(p) ==> p.0 == (Call {
                service: Service::CtrlDTCSetting,
                function: Some(setting_type),
                suppress_positive,
                addr_type: AddressType::Physical,
            }) && p.1@ == built_request(
                Service::CtrlDTCSetting,
                Some(spec_sub_function_byte(setting_type, suppress_positive)),
                parameter@,
            ),
            r matches Err(e) ==> refused_with(
                e,
                request_refused(
                    0x85,
                    Some(spec_sub_function_byte(setting_type, suppress_positive)),
                    parameter@,
                    self.context.did@,
                ),
            ),
    {
        self.sub_function_call(
            Service::CtrlDTCSetting,
            setting_type,
            suppress_positive,
            AddressType::Physical,
            parameter,
        )
    }

    /// ResponseOnEvent has no implementation.
    pub fn response_on_event(&self) -> (r: Result<(), DoCanError>)
        ensures
            r == Err::<(), DoCanError>(DoCanError::NotImplement(Service::ResponseOnEvent)),
    {
        Err(DoCanError::NotImplement(Service::ResponseOnEvent))
    }

    /// LinkControl, with the payload the codec made of the link parameters.
    pub fn link_control(&self, link_type: u8, data: &[u8], suppress_positive: bool) -> (r: Result<
        (Call, Request),
        DoCanError,
    >)
        ensures
            r is Ok <==> request_accepted(
                0x87,
                Some(spec_sub_function_byte(link_type, suppress_positive)),
                data@,
                self.context.did@,
            ),
            r matches Ok(p) ==> p.0 == (Call {
                service: Service::LinkCtrl,
                function: Some(link_type),
                suppress_positive,
                addr_type: AddressType::Physical,
            }) && p.1@ == built_request(
                Service::LinkCtrl,
                Some(spec_sub_function_byte(link_type, suppress_positive)),
                data@,
            ),
            r matches Err(e) ==> refused_with(
                e,
                request_refused(
                    0x87,
                    Some(spec_sub_function_byte(link_type, suppress_positive)),
                    data@,
                    self.context.did@,
                ),
            ),
    {
        self.sub_function_call(
            Service::LinkCtrl,
            link_type,
            suppress_positive,
            AddressType::Physical,
            data,
        )
    }

    /// ReadDataByIdentifier for one identifier and, after it, the others.
    pub fn read_data_by_identifier(&self, did: u16, others: &[u16]) -> (r: Result<
        (Call, Request),
        DoCanError,
    >)
        ensures
            r is Ok <==> request_accepted(
                0x22,
                None,
                did_list_bytes(seq![did] + others@),
                self.context.did@,
            ),
            r matches Ok(p) ==> p.0 == (Call {
                service: Service::ReadDID,
                function: None,
                suppress_positive: false,
                addr_type: AddressType::Physical,
            }) && p.1@ == built_request(
                Service::ReadDID,
                None,
                did_list_bytes(seq![did] + others@),
            ),
            r matches Err(e) ==> refused_with(
                e,
                request_refused(0x22, None, did_list_bytes(seq![did] + others@), self.context.did@),
            ),
    {
        let mut data: Vec<u8> = Vec::new();
        data.push((did >> 8) as u8);
        data.push((did & 0xFF) as u8);
        let ghost all = seq![did] + others@;
        proof {
            assert(all.take(1).drop_last() == Seq::<u16>::empty());
            assert(all.take(1).last() == did);
            assert(did_list_bytes(all.take(1)) == seq![hi(did), lo(did)]) by {
                assert(did_list_bytes(Seq::<u16>::empty()) == Seq::<u8>::empty());
            }
            assert(data@ == did_list_bytes(all.take(1)));
        }
        let mut i: usize = 0;
        while i < others.len()
            invariant
                i <= others.len(),
                all == seq![did] + others@,
                data@ == did_list_bytes(all.take(i + 1)),
            decreases others.len() - i,
        {
            let v = others[i];
            proof {
                assert(all.take(i + 2).drop_last() == all.take(i + 1));
                assert(all.take(i + 2).last() == v);
            }
            data.push((v >> 8) as u8);
            data.push((v & 0xFF) as u8);
            assert(data@ == did_list_bytes(all.take(i + 1)) + seq![hi(v), lo(v)]);
            i += 1;
        }
        assert(all.take(others.len() + 1) == all);
        self.plain_call(Service::ReadDID, AddressType::Physical, data.as_slice())
    }

    /// ReadMemoryByAddress, with the payload the codec made of the memory
    /// location.
    pub fn read_memory_by_address(&self, data: &[u8]) -> (r: Result<(Call, Request), DoCanError>)
        ensures
            r is Ok <==> request_accepted(0x23, None, data@, self.context.did@),
            r matches Ok(p) ==> p.0 == (Call {
                service: Service::ReadMemByAddr,
                function: None,
                suppress_positive: false,
                addr_type: AddressType::Physical,
            }) && p.1@ == built_request(Service::ReadMemByAddr, None, data@),
            r matches Err(e) ==> refused_with(
                e,
                request_refused(0x23, None, data@, self.context.did@),
            ),
    {
        self.plain_call(Service::ReadMemByAddr, AddressType::Physical, data)
    }

    /// ReadScalingDataByIdentifier.
    pub fn read_scaling_data_by_identifier(&self, did: u16) -> (r: Result<
        (Call, Request),
        DoCanError,
    >)
        ensures
            r is Ok <==> request_accepted(0x24, None, seq![hi(did), lo(did)], self.context.did@),
            r matches Ok(p) ==> p.0 == (Call {
                service: Service::ReadScalingDID,
                function: None,
                suppress_positive: false,
                addr_type: AddressType::Physical,
            }) && p.1@ == built_request(Service::ReadScalingDID, None, seq![hi(did), lo(did)]),
            r matches Err(e) ==> refused_with(
                e,
                request_refused(0x24, None, seq![hi(did), lo(did)], self.context.did@),
            ),
    {
        let mut data: Vec<u8> = Vec::new();
        data.push((did >> 8) as u8);
        data.push((did & 0xFF) as u8);
        assert(data@ == seq![hi(did), lo(did)]);
        self.plain_call(Service::ReadScalingDID, AddressType::Physical, data.as_slice())
    }

    /// ReadDataByPeriodicIdentifier in the given transmission mode, for the
    /// given periodic identifiers.
    pub fn read_data_by_period_identifier(&self, mode: u8, dids: &[u8]) -> (r: Result<
        (Call, Request),
        DoCanError,
    >)
        ensures
            payload_called(
                Call {
                    service: Service::ReadDataByPeriodId,
                    function: None,
                    suppress_positive: false,
                    addr_type: AddressType::Physical,
                },
                periodic_payload(mode, dids@),
                self.context.did@,
                r,
            ),
    {
        let call = Call {
            service: Service::ReadDataByPeriodId,
            function: None,
            suppress_positive: false,
            addr_type: AddressType::Physical,
        };
        self.payload_call(call, codec_periodic_payload(mode, dids))
    }

    /// DynamicallyDefineDataIdentifier. The answer is the response where one
    /// came, and none where silence was asked for and kept.
    pub fn dynamically_define_data_by_identifier(
        &self,
        definition_type: u8,
        data: &[u8],
        suppress_positive: bool,
    ) -> (r: Result<(Call, Request), DoCanError>)
        ensures
            r is Ok <==> request_accepted(
                0x2C,
                Some(spec_sub_function_byte(definition_type, suppress_positive)),
                data@,
                self.context.did@,
            ),
            r matches Ok(p) ==> p.0 == (Call {
                service: Service::DynamicalDefineDID,
                function: Some(definition_type),
                suppress_positive,
                addr_type: AddressType::Physical,
            }) && p.1@ == built_request(
                Service::DynamicalDefineDID,
                Some(spec_sub_function_byte(definition_type, suppress_positive)),
                data@,
            ),
            r matches Err(e) ==> refused_with(
                e,
                request_refused(
                    0x2C,
                    Some(spec_sub_function_byte(definition_type, suppress_positive)),
                    data@,
                    self.context.did@,
                ),
            ),
    {
        self.sub_function_call(
            Service::DynamicalDefineDID,
            definition_type,
            suppress_positive,
            AddressType::Physical,
            data,
        )
    }

    /// WriteDataByIdentifier.
    pub fn write_data_by_identifier(&self, did: u16, data: &[u8]) -> (r: Result<
        (Call, Request),
        DoCanError,
    >)
        ensures
            r is Ok <==> request_accepted(
                0x2E,
                None,
                seq![hi(did), lo(did)] + data@,
                self.context.did@,
            ),
            r matches Ok(p) ==> p.0 == (Call {
                service: Service::WriteDID,
                function: None,
                suppress_positive: false,
                addr_type: AddressType::Physical,
            }) && p.1@ == built_request(Service::WriteDID, None, seq![hi(did), lo(did)] + data@),
            r matches Err(e) ==> refused_with(
                e,
                request_refused(0x2E, None, seq![hi(did), lo(did)] + data@, self.context.did@),
            ),
    {
        let mut payload: Vec<u8> = Vec::new();
        payload.push((did >> 8) as u8);
        payload.push((did & 0xFF) as u8);
        assert(payload@ == seq![hi(did), lo(did)]);
        append_bytes(&mut payload, data);
        self.plain_call(Service::WriteDID, AddressType::Physical, payload.as_slice())
    }

    /// WriteMemoryByAddress: the record goes to the memory location that
    /// format byte, address and size name.
    pub fn write_memory_by_address(&self, format: u8, address: u128, size: u128, record: &[u8]) -> (r:
        Result<(Call, Request), DoCanError>)
        ensures
            payload_called(
                Call {
                    service: Service::WriteMemByAddr,
                    function: None,
                    suppress_positive: false,
                    addr_type: AddressType::Physical,
                },
                write_memory_payload(format, address, size, record@),
                self.context.did@,
                r,
            ),
    {
        let call = Call {
            service: Service::WriteMemByAddr,
            function: None,
            suppress_positive: false,
            addr_type: AddressType::Physical,
        };
        self.payload_call(call, codec_write_memory_payload(format, address, size, record))
    }

    /// ClearDiagnosticInformation for the given group, in the given memory
    /// where one is selected.
    pub fn clear_dtc_info(&self, group: u32, mem_sel: Option<u8>, addr_type: AddressType) -> (r:
        Result<(Call, Request), DoCanError>)
        ensures
            payload_called(
                Call {
                    service: Service::ClearDiagnosticInfo,
                    function: None,
                    suppress_positive: false,
                    addr_type,
                },
                Ok(clear_dtc_payload(group, mem_sel)),
                self.context.did@,
                r,
            ),
    {
        let call = Call {
            service: Service::ClearDiagnosticInfo,
            function: None,
            suppress_positive: false,
            addr_type,
        };
        self.payload_call(call, Ok(codec_clear_dtc_payload(group, mem_sel)))
    }

    /// ReadDTCInformation, with the payload the codec made of the report's
    /// parameters.
    pub fn read_dtc_info(&self, report_type: u8, data: &[u8]) -> (r: Result<
        (Call, Request),
        DoCanError,
    >)
        ensures
            r is Ok <==> request_accepted(0x19, Some(report_type), data@, self.context.did@),
            r matches Ok(p) ==> p.0 == (Call {
                service: Service::ReadDTCInfo,
                function: Some(report_type),
                suppress_positive: false,
                addr_type: AddressType::Physical,
            }) && p.1@ == built_request(Service::ReadDTCInfo, Some(report_type), data@),
            r matches Err(e) ==> refused_with(
                e,
                request_refused(0x19, Some(report_type), data@, self.context.did@),
            ),
    {
        self.sub_function_call(
            Service::ReadDTCInfo,
            report_type,
            false,
            AddressType::Physical,
            data,
        )
    }

    /// InputOutputControlByIdentifier with the given control parameter, state
    /// and mask.
    pub fn io_control(&self, did: u16, param: u8, state: &[u8], mask: &[u8]) -> (r: Result<
        (Call, Request),
        DoCanError,
    >)
        ensures
            payload_called(
                Call {
                    service: Service::IOCtrl,
                    function: None,
                    suppress_positive: false,
                    addr_type: AddressType::Physical,
                },
                io_control_payload(did, param, state@, mask@, self.context.did@),
                self.context.did@,
                r,
            ),
    {
        let call = Call {
            service: Service::IOCtrl,
            function: None,
            suppress_positive: false,
            addr_type: AddressType::Physical,
        };
        let payload = codec_io_control_payload(did, param, state, mask, &self.context.did);
        self.payload_call(call, payload)
    }

    /// RoutineControl.
    pub fn routine_control(&self, routine_type: u8, routine_id: u16, option_record: &[u8]) -> (r:
        Result<(Call, Request), DoCanError>)
        ensures
            r is Ok <==> request_accepted(
                0x31,
                Some(routine_type),
                seq![hi(routine_id), lo(routine_id)] + option_record@,
                self.context.did@,
            ),
            r matches Ok(p) ==> p.0 == (Call {
                service: Service::RoutineCtrl,
                function: Some(routine_type),
                suppress_positive: false,
                addr_type: AddressType::Physical,
            }) && p.1@ == built_request(
                Service::RoutineCtrl,
                Some(routine_type),
                seq![hi(routine_id), lo(routine_id)] + option_record@,
            ),
            r matches Err(e) ==> refused_with(
                e,
                request_refused(
                    0x31,
                    Some(routine_type),
                    seq![hi(routine_id), lo(routine_id)] + option_record@,
                    self.context.did@,
                ),
            ),
    {
        let mut payload: Vec<u8> = Vec::new();
        payload.push((routine_id >> 8) as u8);
        payload.push((routine_id & 0xFF) as u8);
        assert(payload@ == seq![hi(routine_id), lo(routine_id)]);
        append_bytes(&mut payload, option_record);
        self.sub_function_call(
            Service::RoutineCtrl,
            routine_type,
            false,
            AddressType::Physical,
            payload.as_slice(),
        )
    }

    /// RequestDownload to the memory location that format byte, address and
    /// size name, in the given data format.
    pub fn request_download(&self, format: u8, address: u128, size: u128, data_format: u8) -> (r:
        Result<(Call, Request), DoCanError>)
        ensures
            payload_called(
                Call {
                    service: Service::RequestDownload,
                    function: None,
                    suppress_positive: false,
                    addr_type: AddressType::Physical,
                },
                load_payload(data_format, format, address, size),
                self.context.did@,
                r,
            ),
    {
        let call = Call {
            service: Service::RequestDownload,
            function: None,
            suppress_positive: false,
            addr_type: AddressType::Physical,
        };
        self.payload_call(call, codec_download_payload(data_format, format, address, size))
    }

    /// RequestUpload from the memory location that format byte, address and
    /// size name, in the given data format.
    pub fn request_upload(&self, format: u8, address: u128, size: u128, data_format: u8) -> (r:
        Result<(Call, Request), DoCanError>)
        ensures
            payload_called(
                Call {
                    service: Service::RequestUpload,
                    function: None,
                    suppress_positive: false,
                    addr_type: AddressType::Physical,
                },
                load_payload(data_format, format, address, size),
                self.context.did@,
                r,
            ),
    {
        let call = Call {
            service: Service::RequestUpload,
            function: None,
            suppress_positive: false,
            addr_type: AddressType::Physical,
        };
        self.payload_call(call, codec_upload_payload(data_format, format, address, size))
    }

    /// TransferData: one block with its counter.
    pub fn transfer_data(&self, sequence: u8, data: &[u8]) -> (r: Result<
        (Call, Request),
        DoCanError,
    >)
        ensures
            r is Ok <==> request_accepted(0x36, None, seq![sequence] + data@, self.context.did@),
            r matches Ok(p) ==> p.0 == (Call {
                service: Service::TransferData,
                function: None,
                suppress_positive: false,
                addr_type: AddressType::Physical,
            }) && p.1@ == built_request(Service::TransferData, None, seq![sequence] + data@),
            r matches Err(e) ==> refused_with(
                e,
                request_refused(0x36, None, seq![sequence] + data@, self.context.did@),
            ),
    {
        let mut payload: Vec<u8> = Vec::new();
        payload.push(sequence);
        assert(payload@ == seq![sequence]);
        append_bytes(&mut payload, data);
        self.plain_call(Service::TransferData, AddressType::Physical, payload.as_slice())
    }

    /// Concludes TransferData: the server must acknowledge the block that
    /// was sent.
    pub fn transfer_data_done(&self, sequence: u8, outcome: Result<Response, DoCanError>) -> (r:
        Result<(u8, Vec<u8>), DoCanError>)
        ensures
            r matches Ok(block) ==> block.0 == sequence,
            outcome matches Ok(resp) ==> (r matches Ok(block) ==> resp@.data.len() >= 1
                && resp@.data[0] == sequence && block.1@ == resp@.data.skip(1)),
            outcome matches Ok(resp) ==> (r matches Err(
                DoCanError::UnexpectedTransferSequence { actual, .. },
            ) ==> resp@.data.len() >= 1 && actual == resp@.data[0]),
            match outcome {
                Err(e) => r == Err::<(u8, Vec<u8>), DoCanError>(e),
                Ok(resp) => match transfer_data_decoded(resp@.data) {
                    None => r matches Err(DoCanError::Iso14229Error(_)),
                    Some(block) => if block.0 == sequence {
                        r matches Ok(b) && b.0 == sequence && b.1@ == block.1
                    } else {
                        r == Err::<(u8, Vec<u8>), DoCanError>(
                            DoCanError::UnexpectedTransferSequence {
                                expect: sequence,
                                actual: block.0,
                            },
                        )
                    },
                },
            },
    {
        match outcome {
            Err(e) => Err(e),
            Ok(resp) => match codec_transfer_data(resp.raw_data(), &self.context.did) {
                Err(e) => Err(DoCanError::Iso14229Error(e)),
                Ok((actual, data)) => {
                    if actual != sequence {
                        Err(
                            DoCanError::UnexpectedTransferSequence {
                                expect: sequence,
                                actual,
                            },
                        )
                    } else {
                        Ok((actual, data))
                    }
                },
            },
        }
    }

    /// RequestTransferExit.
    pub fn request_transfer_exit(&self, parameter: &[u8]) -> (r: Result<
        (Call, Request),
        DoCanError,
    >)
        ensures
            r is Ok <==> request_accepted(0x37, None, parameter@, self.context.did@),
            r matches Ok(p) ==> p.0 == (Call {
                service: Service::RequestTransferExit,
                function: None,
                suppress_positive: false,
                addr_type: AddressType::Physical,
            }) && p.1@ == built_request(Service::RequestTransferExit, None, parameter@),
            r matches Err(e) ==> refused_with(
                e,
                request_refused(0x37, None, parameter@, self.context.did@),
            ),
    {
        self.plain_call(Service::RequestTransferExit, AddressType::Physical, parameter)
    }

    /// RequestFileTransfer, with the payload the codec made of the file
    /// parameters.
    pub fn request_file_transfer(&self, operation: u8, data: &[u8]) -> (r: Result<
        (Call, Request),
        DoCanError,
    >)
        ensures
            r is Ok <==> request_accepted(0x38, Some(operation), data@, self.context.did@),
            r matches Ok(p) ==> p.0 == (Call {
                service: Service::RequestFileTransfer,
                function: Some(operation),
                suppress_positive: false,
                addr_type: AddressType::Physical,
            }) && p.1@ == built_request(Service::RequestFileTransfer, Some(operation), data@),
            r matches Err(e) ==> refused_with(
                e,
                request_refused(0x38, Some(operation), data@, self.context.did@),
            ),
    {
        self.sub_function_call(
            Service::RequestFileTransfer,
            operation,
            false,
            AddressType::Physical,
            data,
        )
    }
}

} // verus!
