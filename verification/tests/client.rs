use docan_rs::client::client_impl::{
    response_service_check, sub_func_check, suppress_positive_sr, tester_present_request,
    ClientAction, ClientEvent, DoCanClient, Exchange,
};
use docan_rs::client::trait_impl::{conclude, conclude_response, Call};
use docan_rs::codec::DidConfig;
use docan_rs::error::{DoCanError, TransportError};
use docan_rs::message::{AddressType, Response, Service, SubFunction};
use docan_rs::security::SecurityAlgo;
use docan_rs::subfunction::SessionType;
use docan_rs::timing::{ByteOrder, SessionTiming};

struct XorAlgo;

impl SecurityAlgo for XorAlgo {
    fn compute(&self, _level: u8, seed: &[u8], salt: &[u8]) -> Result<Option<Vec<u8>>, String> {
        if seed.iter().all(|b| *b == 0x00) {
            return Ok(None);
        }
        if seed.iter().all(|b| *b == 0xFF) {
            return Err("seed of all ones".to_string());
        }
        Ok(Some(seed.iter().map(|b| b ^ salt[0]).collect()))
    }
}

/// An algorithm whose key tells what it was asked: level, seed and salt.
struct Tell;

impl SecurityAlgo for Tell {
    fn compute(&self, level: u8, seed: &[u8], salt: &[u8]) -> Result<Option<Vec<u8>>, String> {
        let mut key = vec![level];
        key.extend_from_slice(seed);
        key.extend_from_slice(salt);
        Ok(Some(key))
    }
}

fn client() -> DoCanClient<XorAlgo> {
    let mut client = DoCanClient::new(ByteOrder::Big, Some(10));
    client.add_data_identifier(0xF190, 17);
    client
}

fn timeout() -> TransportError {
    TransportError::Timeout { value: 60, unit: "ms".to_string() }
}

fn transmitted(action: ClientAction) -> (AddressType, Vec<u8>, u64) {
    match action {
        ClientAction::Transmit { addr_type, data, timeout_ms } => (addr_type, data, timeout_ms),
        ClientAction::Done(_) => panic!("the exchange ended"),
    }
}

fn done(action: ClientAction) -> Result<Response, DoCanError> {
    match action {
        ClientAction::Done(outcome) => outcome,
        ClientAction::Transmit { .. } => panic!("the exchange goes on"),
    }
}

#[test]
fn session_control_goes_out_and_updates_the_timing() {
    let mut c = client();
    let (call, request) = c
        .session_ctrl(SessionType::Extended, false, AddressType::Functional)
        .unwrap();
    assert_eq!(call.service, Service::SessionCtrl);
    assert_eq!(call.function, Some(0x03));
    let (exchange, action) = c.send_and_response(call.addr_type, &request);
    assert_eq!(transmitted(action), (AddressType::Functional, vec![0x10, 0x03], 50 + 10));
    let cfg = c.context.get_did_cfg();
    let answer = ClientEvent::Received(vec![0x50, 0x03, 0x00, 0x32, 0x00, 0xC8]);
    let outcome = done(exchange.on_event(answer, &cfg));
    c.session_ctrl_done(&call, outcome).unwrap();
    assert_eq!(c.context.get_session_timing(), SessionTiming { p2: 0x32, p2_star: 0xC8 });
    assert_eq!(c.context.timing.timeout_ms(false), 50 + 10);
    assert_eq!(c.context.timing.timeout_ms(true), 2000);

    let (_, request) = c.read_data_by_identifier(0xF190, &[]).unwrap();
    let (exchange, action) = c.send_and_response(AddressType::Physical, &request);
    assert_eq!(transmitted(action), (AddressType::Physical, vec![0x22, 0xF1, 0x90], 50 + 10));
    let late = TransportError::Timeout { value: 60, unit: "ms".to_string() };
    let outcome = done(exchange.on_event(ClientEvent::Failed(late), &cfg));
    assert!(matches!(
        outcome,
        Err(DoCanError::IsoTpError(TransportError::Timeout { value: 60, .. }))
    ));
}

#[test]
fn shorter_announced_timing_shortens_the_wait() {
    let mut c = client();
    let (call, _) = c.session_ctrl(SessionType::Extended, false, AddressType::Physical).unwrap();
    let resp = Response::positive(Service::SessionCtrl, Some(0x03), vec![0x00, 0x20, 0x00, 0x64]);
    c.session_ctrl_done(&call, Ok(resp)).unwrap();
    assert_eq!(c.context.timing.timeout_ms(false), 32 + 10);
    assert_eq!(c.context.timing.timeout_ms(true), 1000);
}

#[test]
fn timing_stays_without_a_response() {
    let mut c = client();
    let (call, _) = c.session_ctrl(SessionType::Extended, true, AddressType::Physical).unwrap();
    c.session_ctrl_done(&call, Err(DoCanError::IsoTpError(timeout()))).unwrap();
    assert_eq!(c.context.get_session_timing(), SessionTiming::default());
    let foreign = Response::positive(Service::SessionCtrl, Some(0x02), vec![0, 1, 0, 1]);
    assert!(c.session_ctrl_done(&call, Ok(foreign)).is_err());
    let short = Response::positive(Service::SessionCtrl, Some(0x03), vec![0, 1]);
    assert!(matches!(c.session_ctrl_done(&call, Ok(short)), Err(DoCanError::Iso14229Error(_))));
    assert_eq!(c.context.get_session_timing(), SessionTiming::default());
}

#[test]
fn announced_timing_is_cut_down_to_the_limits() {
    let mut c = client();
    let (call, _) = c.session_ctrl(SessionType::Extended, false, AddressType::Physical).unwrap();
    let resp = Response::positive(
        Service::SessionCtrl,
        Some(0x03),
        vec![0x01, 0x00, 0xFF, 0xFF],
    );
    c.session_ctrl_done(&call, Ok(resp)).unwrap();
    assert_eq!(c.context.get_session_timing(), SessionTiming { p2: 50, p2_star: 500 });
}

#[test]
fn pending_response_is_answered_with_the_keep_alive() {
    let c = client();
    let cfg = c.context.get_did_cfg();
    let (call, request) = c.read_data_by_identifier(0xF190, &[]).unwrap();
    let (exchange, action) = c.send_and_response(call.addr_type, &request);
    assert_eq!(transmitted(action), (AddressType::Physical, vec![0x22, 0xF1, 0x90], 60));

    let action = exchange.on_event(ClientEvent::Received(vec![0x7F, 0x22, 0x78]), &cfg);
    assert_eq!(transmitted(action), (AddressType::Physical, vec![0x3E, 0x80], 5000));
    let action = exchange.on_event(ClientEvent::Received(vec![0x7F, 0x22, 0x78]), &cfg);
    assert_eq!(transmitted(action), (AddressType::Physical, vec![0x3E, 0x80], 5000));

    let mut answer = vec![0x62, 0xF1, 0x90];
    answer.extend_from_slice(b"ABCDEF1234567890I");
    let outcome = done(exchange.on_event(ClientEvent::Received(answer), &cfg));
    let resp = conclude_response(&call, outcome).unwrap();
    assert_eq!(resp.service(), Service::ReadDID);
    assert_eq!(&resp.raw_data()[2..], b"ABCDEF1234567890I");
}

#[test]
fn keep_alive_goes_out_physically_after_a_functional_request() {
    let c = client();
    let cfg = c.context.get_did_cfg();
    let (call, request) = c.tester_present(0, false, AddressType::Functional).unwrap();
    let (exchange, action) = c.send_and_response(call.addr_type, &request);
    assert_eq!(transmitted(action).0, AddressType::Functional);
    let action = exchange.on_event(ClientEvent::Received(vec![0x7F, 0x3E, 0x78]), &cfg);
    assert_eq!(transmitted(action).0, AddressType::Physical);
}

#[test]
fn refusal_ends_the_exchange() {
    let c = client();
    let cfg = c.context.get_did_cfg();
    let exchange = Exchange { service: Service::ReadDID, timing: c.context.timing };
    let outcome = done(exchange.on_event(ClientEvent::Received(vec![0x7F, 0x22, 0x31]), &cfg));
    assert!(matches!(
        outcome,
        Err(DoCanError::NRCError { service: Service::ReadDID, code: 0x31 })
    ));
}

#[test]
fn response_for_another_service_ends_the_exchange() {
    let c = client();
    let cfg = c.context.get_did_cfg();
    let exchange = Exchange { service: Service::ReadDID, timing: c.context.timing };
    let outcome = done(exchange.on_event(ClientEvent::Received(vec![0x7E, 0x00]), &cfg));
    assert!(matches!(
        outcome,
        Err(DoCanError::UnexpectedResponse {
            expect: Service::ReadDID,
            actual: Service::TesterPresent
        })
    ));
}

#[test]
fn transport_failure_ends_the_exchange() {
    let c = client();
    let cfg = c.context.get_did_cfg();
    let exchange = Exchange { service: Service::ReadDID, timing: c.context.timing };
    let outcome = done(exchange.on_event(ClientEvent::Failed(TransportError::OverloadFlow), &cfg));
    assert!(matches!(outcome, Err(DoCanError::IsoTpError(TransportError::OverloadFlow))));
}

#[test]
fn unreadable_bytes_end_the_exchange() {
    let c = client();
    let cfg = c.context.get_did_cfg();
    let exchange = Exchange { service: Service::ReadDID, timing: c.context.timing };
    let outcome = done(exchange.on_event(ClientEvent::Received(vec![0x62, 0x12]), &cfg));
    assert!(matches!(outcome, Err(DoCanError::Iso14229Error(_))));
}

#[test]
fn service_check_tells_pending_from_final() {
    let pending = Response::new_negative(Service::ReadDID, 0x78);
    assert!(matches!(response_service_check(&pending, Service::ReadDID), Ok(true)));
    let fine = Response::positive(Service::ReadDID, None, vec![1]);
    assert!(matches!(response_service_check(&fine, Service::ReadDID), Ok(false)));
    assert!(matches!(
        response_service_check(&fine, Service::WriteDID),
        Err(DoCanError::UnexpectedResponse {
            expect: Service::WriteDID,
            actual: Service::ReadDID
        })
    ));
    let refused = Response::new_negative(Service::WriteDID, 0x33);
    assert!(matches!(
        response_service_check(&refused, Service::ReadDID),
        Err(DoCanError::NRCError { service: Service::WriteDID, code: 0x33 })
    ));
}

#[test]
fn sub_function_check_wants_the_echo() {
    let resp = Response::positive(Service::SessionCtrl, Some(0x03), vec![0, 50, 0, 200]);
    assert!(sub_func_check(&resp, 0x03, Service::SessionCtrl).is_ok());
    assert!(matches!(
        sub_func_check(&resp, 0x02, Service::SessionCtrl),
        Err(DoCanError::UnexpectedSubFunction {
            service: Service::SessionCtrl,
            expect: 0x02,
            actual: 0x03
        })
    ));
    let bare = Response::positive(Service::ReadDID, None, vec![1]);
    match sub_func_check(&bare, 0x02, Service::ReadDID) {
        Err(DoCanError::OtherError(text)) => assert_eq!(
            text,
            "response of service `ReadDataByIdentifier` got an empty sub-function"
        ),
        other => panic!("unexpected result: {:?}", other),
    }
    let bare = Response::positive(Service::SessionCtrl, None, vec![0, 50, 0, 200]);
    match sub_func_check(&bare, 0x03, Service::SessionCtrl) {
        Err(DoCanError::OtherError(text)) => assert_eq!(
            text,
            "response of service `DiagnosticSessionControl` got an empty sub-function"
        ),
        other => panic!("unexpected result: {:?}", other),
    }
}

#[test]
fn timeout_after_a_request_for_silence_is_success() {
    let c = client();
    let (call, request) = c.ecu_reset(0x01, true, AddressType::Physical).unwrap();
    assert_eq!(request.to_bytes(), vec![0x11, 0x81]);
    let cfg = c.context.get_did_cfg();
    let (exchange, action) = c.send_and_response(call.addr_type, &request);
    assert_eq!(transmitted(action).2, 60);
    let outcome = done(exchange.on_event(ClientEvent::Failed(timeout()), &cfg));
    assert!(matches!(c.ecu_reset_done(&call, outcome), Ok(None)));
}

#[test]
fn timeout_without_a_request_for_silence_is_a_failure() {
    assert!(matches!(
        suppress_positive_sr(Err(DoCanError::IsoTpError(timeout())), false),
        Err(DoCanError::IsoTpError(TransportError::Timeout { value: 60, .. }))
    ));
    assert!(matches!(suppress_positive_sr(Err(DoCanError::IsoTpError(timeout())), true), Ok(None)));
    assert!(matches!(
        suppress_positive_sr(Err(DoCanError::IsoTpError(TransportError::EmptyPdu)), true),
        Err(DoCanError::IsoTpError(TransportError::EmptyPdu))
    ));
    assert!(matches!(
        suppress_positive_sr(
            Err(DoCanError::NRCError { service: Service::ECUReset, code: 0x22 }),
            true
        ),
        Err(DoCanError::NRCError { service: Service::ECUReset, code: 0x22 })
    ));
    let resp = Response::positive(Service::ECUReset, Some(1), vec![]);
    assert_eq!(suppress_positive_sr(Ok(resp.clone()), true).unwrap(), Some(resp));
}

#[test]
fn ecu_reset_tells_how_long_to_pause() {
    let c = client();
    let (call, _) = c.ecu_reset(0x04, false, AddressType::Physical).unwrap();
    let resp = Response::positive(Service::ECUReset, Some(0x04), vec![0x05]);
    assert!(matches!(c.ecu_reset_done(&call, Ok(resp)), Ok(Some(5))));
    let (call, _) = c.ecu_reset(0x01, false, AddressType::Physical).unwrap();
    let resp = Response::positive(Service::ECUReset, Some(0x01), vec![]);
    assert!(matches!(c.ecu_reset_done(&call, Ok(resp)), Ok(None)));
    let resp = Response::positive(Service::ECUReset, Some(0x02), vec![]);
    assert!(matches!(
        c.ecu_reset_done(&call, Ok(resp)),
        Err(DoCanError::UnexpectedSubFunction { expect: 0x01, actual: 0x02, .. })
    ));
}

#[test]
fn transfer_data_wants_its_block_acknowledged() {
    let c = client();
    let (call, request) = c.transfer_data(3, &[0xAA, 0xBB]).unwrap();
    assert_eq!(call.service, Service::TransferData);
    assert_eq!(request.to_bytes(), vec![0x36, 0x03, 0xAA, 0xBB]);
    let wrong = Response::positive(Service::TransferData, None, vec![0x04]);
    assert!(matches!(
        c.transfer_data_done(3, Ok(wrong)),
        Err(DoCanError::UnexpectedTransferSequence { expect: 3, actual: 4 })
    ));
    let right = Response::positive(Service::TransferData, None, vec![0x03, 0x01]);
    assert_eq!(c.transfer_data_done(3, Ok(right)).unwrap(), (3, vec![0x01]));
}

#[test]
fn unlocking_sends_the_key_at_the_next_level() {
    let mut c = client();
    assert!(matches!(
        c.unlock_key_request(1, &[1, 2, 3, 4], &[0xAA]),
        Err(DoCanError::OtherError(_))
    ));
    c.update_security_algo(XorAlgo);
    let (call, request) = c.security_access(1, &[]).unwrap();
    assert_eq!(request.to_bytes(), vec![0x27, 0x01]);
    let seed = Response::positive(Service::SecurityAccess, Some(1), vec![1, 2, 3, 4]);
    let seed = DoCanClient::<XorAlgo>::raw_done(&call, Ok(seed)).unwrap();
    let (call, request) = c.unlock_key_request(1, &seed, &[0xAA]).unwrap().unwrap();
    assert_eq!(call.function, Some(2));
    assert_eq!(request.to_bytes(), vec![0x27, 0x02, 0xAB, 0xA8, 0xA9, 0xAE]);
    let echo = Response::positive(Service::SecurityAccess, Some(2), vec![]);
    assert!(conclude_response(&call, Ok(echo)).is_ok());
    let other = Response::positive(Service::SecurityAccess, Some(4), vec![]);
    assert!(matches!(
        conclude_response(&call, Ok(other)),
        Err(DoCanError::UnexpectedSubFunction { expect: 2, actual: 4, .. })
    ));
}

#[test]
fn unlocking_ends_where_no_key_is_needed_or_the_algorithm_fails() {
    let mut c = client();
    c.update_security_algo(XorAlgo);
    assert!(matches!(c.unlock_key_request(1, &[0, 0], &[0xAA]), Ok(None)));
    assert!(matches!(
        c.unlock_key_request(1, &[0xFF, 0xFF], &[0xAA]),
        Err(DoCanError::SecurityAlgoError(_))
    ));
    assert!(matches!(
        c.unlock_key_request_with(1, Err("broken".to_string())),
        Err(DoCanError::SecurityAlgoError(text)) if text == "broken"
    ));
}

#[test]
fn conclusion_keeps_the_answer_of_a_plain_call() {
    let call = Call {
        service: Service::ReadDID,
        function: None,
        suppress_positive: false,
        addr_type: AddressType::Physical,
    };
    let resp = Response::positive(Service::ReadDID, None, vec![1, 2, 3]);
    assert_eq!(conclude(&call, Ok(resp.clone())).unwrap(), Some(resp));
}

#[test]
fn requests_carry_what_was_asked_for() {
    let c = client();
    let (_, r) = c.read_data_by_identifier(0xF190, &[0xF187, 0x0102]).unwrap();
    assert_eq!(r.to_bytes(), vec![0x22, 0xF1, 0x90, 0xF1, 0x87, 0x01, 0x02]);
    let (_, r) = c.write_data_by_identifier(0xF190, b"ABCDEF1234567890I").unwrap();
    assert_eq!(r.to_bytes()[..3], [0x2E, 0xF1, 0x90]);
    assert_eq!(r.to_bytes().len(), 20);
    assert!(matches!(
        c.write_data_by_identifier(0xF190, b"short"),
        Err(DoCanError::Iso14229Error(_))
    ));
    let (_, r) = c.routine_control(1, 0xFF00, &[0x01]).unwrap();
    assert_eq!(r.to_bytes(), vec![0x31, 0x01, 0xFF, 0x00, 0x01]);
    let (_, r) = c.read_scaling_data_by_identifier(0xF190).unwrap();
    assert_eq!(r.to_bytes(), vec![0x24, 0xF1, 0x90]);
    let (call, r) = c.communication_control(0x00, 0x01, None, true, AddressType::Functional).unwrap();
    assert_eq!(r.to_bytes(), vec![0x28, 0x80, 0x01]);
    assert_eq!(call.addr_type, AddressType::Functional);
    assert_eq!(
        r.sub_function(),
        Some(SubFunction { origin: 0x80, suppress_positive: true })
    );
    let (_, r) = c.control_dtc_setting(0x01, &[], false).unwrap();
    assert_eq!(r.to_bytes(), vec![0x85, 0x01]);
    let (_, r) = c.link_control(0x03, &[], false).unwrap();
    assert_eq!(r.to_bytes(), vec![0x87, 0x03]);
    let (_, r) = c.request_transfer_exit(&[0x09]).unwrap();
    assert_eq!(r.to_bytes(), vec![0x37, 0x09]);
    let (_, r) = c.request_download(0x11, 0x10, 0x20, 0x00).unwrap();
    assert_eq!(r.to_bytes(), vec![0x34, 0x00, 0x11, 0x10, 0x20]);
    let (_, r) = c.request_upload(0x11, 0x10, 0x20, 0x00).unwrap();
    assert_eq!(r.to_bytes(), vec![0x35, 0x00, 0x11, 0x10, 0x20]);
    let (_, r) = c.clear_dtc_info(0x00FF_FFFF, None, AddressType::Physical).unwrap();
    assert_eq!(r.to_bytes(), vec![0x14, 0xFF, 0xFF, 0xFF]);
    let (_, r) = c.authentication(0x00, &[]).unwrap();
    assert_eq!(r.to_bytes(), vec![0x29, 0x00]);
    let (_, r) = c.read_memory_by_address(&[0x11, 0x10, 0x20]).unwrap();
    assert_eq!(r.to_bytes(), vec![0x23, 0x11, 0x10, 0x20]);
    assert!(matches!(
        c.response_on_event(),
        Err(DoCanError::NotImplement(Service::ResponseOnEvent))
    ));
}

#[test]
fn tester_present_request_sets_the_suppress_bit() {
    let cfg = DidConfig::new();
    let (service, request) = tester_present_request(0, true, &cfg).unwrap();
    assert_eq!(service, Service::TesterPresent);
    assert_eq!(request.to_bytes(), vec![0x3E, 0x80]);
    let (_, request) = tester_present_request(0, false, &cfg).unwrap();
    assert_eq!(request.to_bytes(), vec![0x3E, 0x00]);
    assert!(tester_present_request(1, false, &cfg).is_err());
}

#[test]
fn data_identifiers_come_and_go() {
    let mut c = client();
    assert_eq!(c.context.get_did_cfg().get(0xF190), Some(17));
    assert!(c.add_data_identifier(0x0102, 3));
    assert!(!c.add_data_identifier(0x0103, usize::MAX));
    assert_eq!(c.context.get_did_cfg().len(), 2);
    c.remove_data_identifier(0xF190);
    assert_eq!(c.context.get_did_cfg().get(0xF190), None);
    assert_eq!(c.byte_order(), ByteOrder::Big);
    assert_eq!(c.context.p2_offset(), 10);
}

#[test]
fn question_for_the_algorithm_is_level_seed_and_salt() {
    let mut c: DoCanClient<Tell> = DoCanClient::new(ByteOrder::Big, None);
    match c.key_question(3, &[7, 8], &[0xAA]) {
        Err(DoCanError::OtherError(text)) => assert_eq!(text, "security algorithm required"),
        other => panic!("unexpected result: {:?}", other),
    }
    c.update_security_algo(Tell);
    assert_eq!(c.key_question(3, &[7, 8], &[0xAA]).unwrap(), (3, vec![7, 8], vec![0xAA]));
    let (call, request) = c.unlock_key_request(3, &[7, 8], &[0xAA, 0xBB]).unwrap().unwrap();
    assert_eq!(call.function, Some(4));
    assert_eq!(request.to_bytes(), vec![0x27, 0x04, 3, 7, 8, 0xAA, 0xBB]);
}

#[test]
fn any_number_of_pending_responses_is_bridged() {
    let c = client();
    let cfg = c.context.get_did_cfg();
    let (call, request) = c.read_data_by_identifier(0xF190, &[]).unwrap();
    let mut answer = vec![0x62, 0xF1, 0x90];
    answer.extend_from_slice(b"ABCDEF1234567890I");
    let finals: Vec<Vec<u8>> = vec![answer, vec![0x7F, 0x22, 0x31], vec![0x50, 0x03, 0, 50, 0, 200]];
    for last in finals {
        let (exchange, _) = c.send_and_response(call.addr_type, &request);
        let alone = format!("{:?}", done(exchange.on_event(ClientEvent::Received(last.clone()), &cfg)));
        for pending in 0..6usize {
            let (exchange, first) = c.send_and_response(call.addr_type, &request);
            let mut sent = vec![transmitted(first).1];
            let mut events: Vec<Vec<u8>> = vec![vec![0x7F, 0x22, 0x78]; pending];
            events.push(last.clone());
            let mut outcome = None;
            for bytes in events {
                assert!(outcome.is_none());
                match exchange.on_event(ClientEvent::Received(bytes), &cfg) {
                    ClientAction::Transmit { addr_type, data, timeout_ms } => {
                        assert_eq!((addr_type, timeout_ms), (AddressType::Physical, 5000));
                        sent.push(data);
                    },
                    ClientAction::Done(r) => outcome = Some(r),
                }
            }
            assert_eq!(sent.len(), 1 + pending);
            assert!(sent[1..].iter().all(|data| data == &[0x3E, 0x80]));
            let outcome = outcome.unwrap();
            assert!(!matches!(outcome, Err(DoCanError::NRCError { code: 0x78, .. })));
            assert_eq!(format!("{:?}", outcome), alone);
        }
    }
}
