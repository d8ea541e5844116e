//! The client engine: one request, the answers that come back for it, and
//! what the client makes of them.

use crate::client::context::Context;
use crate::codec::{
    built_request, codec_service_name, decode_refusal, decode_response, decoded_response,
    new_request, refused_with, request_accepted, request_refused, service_name, DidConfig,
    MAX_DID_LENGTH,
};
use crate::error::{DoCanError, TransportError};
use crate::message::{
    request_bytes, spec_sub_function_byte, sub_function_byte, AddressType, Request, Response,
    ResponseView, Service,
};
use crate::nrc;
use crate::security::SecurityAlgo;
use crate::subfunction::TESTER_PRESENT_ZERO;
use crate::timing::{ByteOrder, TimingContext};
use vstd::prelude::*;
use vstd::string::StringExecFns;

verus! {

/// A diagnostic client: its state, without the transport it sends on.
pub struct DoCanClient<A: SecurityAlgo> {
    pub context: Context<A>,
}

/// What a received response means for a request of the service `target`.
pub enum Judgement {
    /// The server is still working; keep it alive and wait on.
    Pending,
    /// This is the response to the request.
    Final,
    /// The server refused the request with this code.
    Refused(u8),
    /// The response belongs to another service.
    Foreign,
}

/// The meaning of a response for a request of the service `target`.
pub open spec fn judge(resp: ResponseView, target: Service) -> Judgement {
    if resp.negative {
        if resp.data[0] == nrc::RESPONSE_PENDING {
            Judgement::Pending
        } else {
            Judgement::Refused(resp.data[0])
        }
    } else if resp.service != target {
        Judgement::Foreign
    } else {
        Judgement::Final
    }
}

/// What the service check returns for a response.
pub open spec fn service_check(resp: ResponseView, target: Service) -> Result<bool, DoCanError> {
    match judge(resp, target) {
        Judgement::Pending => Ok(true),
        Judgement::Final => Ok(false),
        Judgement::Refused(code) => Err(DoCanError::NRCError { service: resp.service, code }),
        Judgement::Foreign => Err(
            DoCanError::UnexpectedResponse { expect: target, actual: resp.service },
        ),
    }
}

/// What the sub-function check says of a response without sub-function: it
/// names the service by the name the codec prints it by.
pub open spec fn empty_sub_function_text(service: Service) -> Seq<char> {
    "response of service `"@ + service_name(service.byte())
        + "` got an empty sub-function"@
}

/// What unlocking security access says where no algorithm is registered.
pub open spec fn algorithm_required_text() -> Seq<char> {
    "security algorithm required"@
}

/// Whether the echoed sub-function of a response is the one requested.
pub open spec fn echoes(resp: ResponseView, source: u8) -> bool {
    resp.sub_function == Some(source)
}

/// What a client makes of the end of an exchange whose request may have asked
/// for silence: a timeout after such a request is success without response.
pub open spec fn absorbed_timeout(
    outcome: Result<Response, DoCanError>,
    suppress_positive: bool,
) -> bool {
    suppress_positive && (outcome matches Err(DoCanError::IsoTpError(e)) && e is Timeout)
}

/// What the client does next in an exchange.
pub enum ClientAction {
    /// Transmit these bytes with this addressing, then wait for data for at
    /// most this many milliseconds.
    Transmit { addr_type: AddressType, data: Vec<u8>, timeout_ms: u64 },
    /// The exchange is over, with this result.
    Done(Result<Response, DoCanError>),
}

/// What the transport reports back after a transmission and the wait that
/// followed it.
pub enum ClientEvent {
    /// Data arrived in time.
    Received(Vec<u8>),
    /// Transmitting failed, or no data arrived in time, or the transport
    /// reported an error while waiting.
    Failed(TransportError),
}

/// One request on its way: the service it asks for and the timing it waits
/// by, taken when the request was sent.
#[derive(Clone, Copy, Debug, PartialEq, Eq, Structural)]
pub struct Exchange {
    pub service: Service,
    pub timing: TimingContext,
}

/// The bytes of the keep-alive a client sends while the server is busy:
/// TesterPresent with the suppress bit.
pub open spec fn keep_alive_bytes() -> Seq<u8> {
    seq![0x3Eu8, 0x80u8]
}

/// Whether the codec builds the keep-alive request.
pub open spec fn keep_alive_accepted(dids: Map<u16, usize>) -> bool {
    request_accepted(0x3E, Some(0x80u8), Seq::empty(), dids)
}

/// Whether `action` is the step that follows `event` in an exchange.
pub open spec fn next_step(
    exchange: Exchange,
    event: ClientEvent,
    dids: Map<u16, usize>,
    action: ClientAction,
) -> bool {
    match event {
        ClientEvent::Failed(e) => action matches ClientAction::Done(Err(DoCanError::IsoTpError(f)))
            && f == e,
        ClientEvent::Received(bytes) => match decoded_response(bytes@, dids) {
            None => action matches ClientAction::Done(Err(e)) && refused_with(
                e,
                decode_refusal(bytes@, dids),
            ),
            Some(resp) => match judge(resp, exchange.service) {
                Judgement::Pending => if keep_alive_accepted(dids) {
                    &&& action matches ClientAction::Transmit { addr_type, data, timeout_ms }
                    &&& addr_type == AddressType::Physical
                    &&& data@ == keep_alive_bytes()
                    &&& timeout_ms == exchange.timing.spec_timeout_ms(true)
                } else {
                    action matches ClientAction::Done(Err(e)) && refused_with(
                        e,
                        request_refused(0x3E, Some(0x80u8), Seq::empty(), dids),
                    )
                },
                Judgement::Final => action matches ClientAction::Done(Ok(r)) && r@ == resp,
                Judgement::Refused(code) => action matches ClientAction::Done(Err(e)) && e
                    == (DoCanError::NRCError { service: resp.service, code }),
                Judgement::Foreign => action matches ClientAction::Done(Err(e)) && e
                    == (DoCanError::UnexpectedResponse {
                    expect: exchange.service,
                    actual: resp.service,
                }),
            },
        },
    }
}

/// Whether an event is a response by which the server says that it is still
/// working on the request.
pub open spec fn is_pending(exchange: Exchange, event: ClientEvent, dids: Map<u16, usize>) -> bool {
    event matches ClientEvent::Received(bytes) && (decoded_response(bytes@, dids) matches Some(
        resp,
    ) && judge(resp, exchange.service) is Pending)
}

/// Whether `actions` are the steps of an exchange that saw `events`, one
/// after the other.
pub open spec fn steps_follow(
    exchange: Exchange,
    events: Seq<ClientEvent>,
    dids: Map<u16, usize>,
    actions: Seq<ClientAction>,
) -> bool {
    &&& actions.len() == events.len()
    &&& forall|i: int|
        0 <= i < events.len() ==> #[trigger] next_step(exchange, events[i], dids, actions[i])
}

/// Whether an action sends the keep-alive and waits for the next response by
/// P2*.
pub open spec fn sends_keep_alive(exchange: Exchange, action: ClientAction) -> bool {
    &&& action matches ClientAction::Transmit { addr_type, data, timeout_ms }
    &&& addr_type == AddressType::Physical
    &&& data@ == keep_alive_bytes()
    &&& timeout_ms == exchange.timing.spec_timeout_ms(true)
}

/// However many pending responses come before it, the first event that is
/// none ends the exchange, and with the result it would have had as the only
/// event. Each pending response before it is answered with one keep-alive
/// and nothing else, and "response pending" is never the refusal an exchange
/// ends with.
pub proof fn lemma_pending_responses_are_bridged(
    exchange: Exchange,
    events: Seq<ClientEvent>,
    dids: Map<u16, usize>,
    actions: Seq<ClientAction>,
)
    requires
        keep_alive_accepted(dids),
        events.len() >= 1,
        forall|i: int| 0 <= i < events.len() - 1 ==> is_pending(exchange, #[trigger] events[i], dids),
        !is_pending(exchange, events.last(), dids),
        steps_follow(exchange, events, dids, actions),
    ensures
        forall|i: int|
            0 <= i < events.len() - 1 ==> sends_keep_alive(exchange, #[trigger] actions[i]),
        actions.last() is Done,
        steps_follow(exchange, seq![events.last()], dids, seq![actions.last()]),
        !(actions.last() matches ClientAction::Done(Err(DoCanError::NRCError { code, .. }))
            && code == nrc::RESPONSE_PENDING),
{
    let last = events.len() - 1;
    assert(next_step(exchange, events[last], dids, actions[last]));
    assert forall|i: int| 0 <= i < events.len() - 1 implies sends_keep_alive(
        exchange,
        #[trigger] actions[i],
    ) by {
        assert(next_step(exchange, events[i], dids, actions[i]));
        assert(is_pending(exchange, events[i], dids));
    }
    assert(seq![events.last()][0] == events[last]);
    assert(seq![actions.last()][0] == actions[last]);
}

/// An exchange goes on only while the server says that it is still working:
/// every step that transmits answers a pending response, and what it
/// transmits is the keep-alive.
pub proof fn lemma_exchange_goes_on_only_while_pending(
    exchange: Exchange,
    events: Seq<ClientEvent>,
    dids: Map<u16, usize>,
    actions: Seq<ClientAction>,
)
    requires
        steps_follow(exchange, events, dids, actions),
    ensures
        forall|i: int|
            0 <= i < events.len() && (#[trigger] actions[i]) is Transmit ==> is_pending(
                exchange,
                events[i],
                dids,
            ) && sends_keep_alive(exchange, actions[i]),
{
    assert forall|i: int| 0 <= i < events.len() && (#[trigger] actions[i]) is Transmit implies
        is_pending(exchange, events[i], dids) && sends_keep_alive(exchange, actions[i]) by {
        assert(next_step(exchange, events[i], dids, actions[i]));
    }
}

/// Whether a response is pending, final, refused or foreign for a request of
/// the service `target`: `Ok(true)` says "pending", `Ok(false)` says "final".
pub fn response_service_check(response: &Response, target: Service) -> (r: Result<
    bool,
    DoCanError,
>)
    ensures
        r == service_check(response@, target),
        r matches Ok(false) ==> response@.service == target && !response@.negative,
{
    let service = response.service();
    match response.nrc_code() {
        Some(code) => {
            if code == nrc::RESPONSE_PENDING {
                Ok(true)
            } else {
                Err(DoCanError::NRCError { service, code })
            }
        },
        None => {
            if service != target {
                Err(DoCanError::UnexpectedResponse { expect: target, actual: service })
            } else {
                Ok(false)
            }
        },
    }
}

/// Checks that a response echoes the sub-function that was requested.
pub fn sub_func_check(response: &Response, source: u8, service: Service) -> (r: Result<
    (),
    DoCanError,
>)
    ensures
        r is Ok <==> echoes(response@, source),
        match response@.sub_function {
            Some(actual) => actual != source ==> r == Err::<(), DoCanError>(
                DoCanError::UnexpectedSubFunction { service, expect: source, actual },
            ),
            None => r matches Err(DoCanError::OtherError(text)) && text@
                == empty_sub_function_text(service),
        },
{
    match response.sub_function() {
        Some(actual) => {
            if actual != source {
                Err(DoCanError::UnexpectedSubFunction { service, expect: source, actual })
            } else {
                Ok(())
            }
        },
        None => {
            proof {
                crate::message::lemma_service_byte_round_trip(service);
            }
            let name = codec_service_name(service.to_byte());
            let text = String::from_str("response of service `").concat(name.as_str()).concat(
                "` got an empty sub-function",
            );
            Err(DoCanError::OtherError(text))
        },
    }
}

/// The end of an exchange, seen by a caller that may have asked for silence:
/// a timeout after a request for silence is success without response; every
/// other result stays as it is.
pub fn suppress_positive_sr(outcome: Result<Response, DoCanError>, suppress_positive: bool) -> (r:
    Result<Option<Response>, DoCanError>)
    ensures
        absorbed_timeout(outcome, suppress_positive) ==> r matches Ok(None),
        !absorbed_timeout(outcome, suppress_positive) ==> match outcome {
            Ok(resp) => r == Ok::<Option<Response>, DoCanError>(Some(resp)),
            Err(e) => r == Err::<Option<Response>, DoCanError>(e),
        },
{
    match outcome {
        Ok(resp) => Ok(Some(resp)),
        Err(e) => match e {
            DoCanError::IsoTpError(t) => {
                if suppress_positive && t.is_timeout() {
                    Ok(None)
                } else {
                    Err(DoCanError::IsoTpError(t))
                }
            },
            other => Err(other),
        },
    }
}

/// The TesterPresent request, with the suppress bit if silence is asked for.
pub fn tester_present_request(test_type: u8, suppress_positive: bool, did: &DidConfig) -> (r:
    Result<(Service, Request), DoCanError>)
    ensures
        r is Ok <==> request_accepted(
            0x3E,
            Some(spec_sub_function_byte(test_type, suppress_positive)),
            Seq::empty(),
            did@,
        ),
        r matches Ok(p) ==> p.0 == Service::TesterPresent && p.1@ == built_request(
            Service::TesterPresent,
            Some(spec_sub_function_byte(test_type, suppress_positive)),
            Seq::empty(),
        ),
        r matches Err(e) ==> refused_with(
            e,
            request_refused(
                0x3E,
                Some(spec_sub_function_byte(test_type, suppress_positive)),
                Seq::empty(),
                did@,
            ),
        ),
{
    let service = Service::TesterPresent;
    let sub_func = sub_function_byte(test_type, suppress_positive);
    let empty: Vec<u8> = Vec::new();
    match new_request(service, Some(sub_func), empty.as_slice(), did) {
        Ok(request) => Ok((service, request)),
        Err(e) => Err(e),
    }
}

impl Exchange {
    /// The step that follows what the transport reported.
    ///
    /// A failure ends the exchange with the failure. Received bytes are read
    /// as a response: a pending response is answered with the keep-alive,
    /// sent physically and waited for by P2*; a final response ends the
    /// exchange with it; a refusal or a response for another service ends it
    /// with an error.
    pub fn on_event(&self, event: ClientEvent, cfg: &DidConfig) -> (action: ClientAction)
        ensures
            next_step(*self, event, cfg@, action),
            action matches ClientAction::Done(Ok(resp)) ==> resp@.service == self.service
                && !resp@.negative,
    {
        match event {
            ClientEvent::Failed(e) => ClientAction::Done(Err(DoCanError::IsoTpError(e))),
            ClientEvent::Received(bytes) => {
                match decode_response(bytes.as_slice(), cfg) {
                    Err(e) => ClientAction::Done(Err(e)),
                    Ok(response) => {
                        match response_service_check(&response, self.service) {
                            Err(e) => ClientAction::Done(Err(e)),
                            Ok(false) => ClientAction::Done(Ok(response)),
                            Ok(true) => {
                                proof {
                                    assert(spec_sub_function_byte(TESTER_PRESENT_ZERO, true)
                                        == 0x80u8) by (bit_vector);
                                }
                                match tester_present_request(TESTER_PRESENT_ZERO, true, cfg) {
                                    Err(e) => ClientAction::Done(Err(e)),
                                    Ok((_, request)) => {
                                        let data = request.to_bytes();
                                        proof {
                                            assert(0x80u8 & 0x80u8 == 0x80u8) by (bit_vector);
                                            assert(data@ =~= keep_alive_bytes());
                                        }
                                        ClientAction::Transmit {
                                            addr_type: AddressType::Physical,
                                            data,
                                            timeout_ms: self.timing.timeout_ms(true),
                                        }
                                    },
                                }
                            },
                        }
                    },
                }
            },
        }
    }
}

impl<A: SecurityAlgo> DoCanClient<A> {
    /// A client that adds `p2_offset` milliseconds to P2.
    pub fn new(byte_order: ByteOrder, p2_offset: Option<u16>) -> (c: DoCanClient<A>)
        ensures
            c.context.timing == TimingContext::initial(p2_offset),
            c.context.did@ == Map::<u16, usize>::empty(),
            c.context.security_algo is None,
            c.context.byte_order == byte_order,
    {
        DoCanClient { context: Context::new(byte_order, p2_offset) }
    }

    pub fn byte_order(&self) -> (o: ByteOrder)
        ensures
            o == self.context.byte_order,
    {
        self.context.byte_order
    }

    /// Registers the security algorithm, in place of any earlier one.
    pub fn update_security_algo(&mut self, algo: A)
        ensures
            final(self).context.security_algo == Some(algo),
            final(self).context.timing == old(self).context.timing,
            final(self).context.did == old(self).context.did,
            final(self).context.byte_order == old(self).context.byte_order,
    {
        self.context.set_security_algo(algo);
    }

    /// Makes a data identifier known, with the length of its value. A length
    /// beyond `MAX_DID_LENGTH` is not taken. Returns whether it was taken.
    pub fn add_data_identifier(&mut self, did: u16, length: usize) -> (taken: bool)
        ensures
            taken == (length <= MAX_DID_LENGTH),
            taken ==> final(self).context.did@ == old(self).context.did@.insert(did, length),
            !taken ==> final(self).context.did@ == old(self).context.did@,
            final(self).context.timing == old(self).context.timing,
            final(self).context.security_algo == old(self).context.security_algo,
            final(self).context.byte_order == old(self).context.byte_order,
    {
        self.context.add_did(did, length)
    }

    /// Forgets a data identifier.
    pub fn remove_data_identifier(&mut self, did: u16)
        ensures
            final(self).context.did@ == old(self).context.did@.remove(did),
            final(self).context.timing == old(self).context.timing,
            final(self).context.security_algo == old(self).context.security_algo,
            final(self).context.byte_order == old(self).context.byte_order,
    {
        self.context.remove_did(did);
    }

    /// Starts an exchange: the request goes out with the given addressing,
    /// and the first response is waited for by P2 plus the extra patience.
    pub fn send_and_response(&self, addr_type: AddressType, request: &Request) -> (r: (
        Exchange,
        ClientAction,
    ))
        ensures
            r.0 == (Exchange { service: request.service, timing: self.context.timing }),
            r.1 matches ClientAction::Transmit { addr_type: a, data, timeout_ms }
                && a == addr_type && data@ == request_bytes(request@)
                && timeout_ms == self.context.timing.spec_timeout_ms(false),
    {
        let timing = self.context.timing;
        let exchange = Exchange { service: request.service, timing };
        let action = ClientAction::Transmit {
            addr_type,
            data: request.to_bytes(),
            timeout_ms: timing.timeout_ms(false),
        };
        (exchange, action)
    }
}

} // verus!
