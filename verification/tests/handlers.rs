use docan_rs::codec::DidConfig;
use docan_rs::message::{Address, Request, Response, Service, SubFunction};
use docan_rs::security::SecurityAlgo;
use docan_rs::server::context::{zero_bytes, Config, Context, DidSaLevel};
use docan_rs::server::server_impl::{process_uds_error, uds_error_code, DoCanServer};
use docan_rs::server::service::security_access::SecurityStep;
use docan_rs::codec::CodecErrorKind;
use docan_rs::subfunction::SessionType;
use docan_rs::timing::{ByteOrder, SessionTiming};
use iso14229_1::Iso14229Error;

struct NoKey;

impl SecurityAlgo for NoKey {
    fn compute(&self, _level: u8, _seed: &[u8], _salt: &[u8]) -> Result<Option<Vec<u8>>, String> {
        Ok(None)
    }
}

/// An algorithm whose key tells what it was asked: level, seed and salt.
struct Tell;

impl SecurityAlgo for Tell {
    fn compute(&self, level: u8, seed: &[u8], salt: &[u8]) -> Result<Option<Vec<u8>>, String> {
        let mut key = vec![level];
        key.extend_from_slice(seed);
        key.extend_from_slice(salt);
        Ok(Some(key))
    }
}

fn context() -> Context<NoKey> {
    fresh()
}

fn fresh<A: SecurityAlgo>() -> Context<A> {
    let mut did_cfg = DidConfig::new();
    assert!(did_cfg.insert(0xF190, 17));
    assert!(did_cfg.insert(0x0102, 2));
    let mut did_sa_level = DidSaLevel::new();
    did_sa_level.insert(0x0102, 3);
    Context::new(Config {
        address: Address { tx_id: 1, rx_id: 2, fid: 3 },
        timing: SessionTiming::default(),
        extend_sa_level: 0,
        program_sa_level: 0,
        seed_len: 2,
        sa_salt: vec![1, 2, 3],
        did_cfg,
        did_sa_level,
        byte_order: ByteOrder::Big,
    })
}

fn extended() -> DoCanServer<NoKey> {
    let mut s = DoCanServer::new(context());
    s.context.session.change(SessionType::Extended);
    s.context.session.keep(0);
    s
}

fn with_sub(service: Service, origin: u8, data: &[u8]) -> Request {
    Request {
        service,
        sub_function: Some(SubFunction { origin, suppress_positive: origin & 0x80 != 0 }),
        data: data.to_vec(),
    }
}

fn plain(service: Service, data: &[u8]) -> Request {
    Request { service, sub_function: None, data: data.to_vec() }
}

fn negative(service: Service, code: u8) -> Option<Response> {
    Some(Response::new_negative(service, code))
}

#[test]
fn fresh_context_knows_its_configuration() {
    let c = context();
    assert_eq!(*c.get_timing(), SessionTiming::default());
    assert_eq!(c.get_did_config().get(0xF190), Some(17));
    assert_eq!(c.get_security_salt(), &[1, 2, 3]);
    assert!(c.get_security_algo().is_none());
    assert_eq!(c.get_static_did_sa_level(0x0102), Some(3));
    assert_eq!(c.get_static_did_sa_level(0xF190), None);
    assert!(c.sa_ctx.is_none());
    assert_eq!(c.session.get_session_type(), SessionType::Default);
}

#[test]
fn values_are_stored_only_at_their_configured_length() {
    let mut c = context();
    assert_eq!(&c.get_static_did(0x0102).unwrap()[..], &[0, 0]);
    assert!(c.get_static_did(0x9999).is_none());
    assert!(!c.set_static_did(0x0102, &[1]));
    assert!(!c.set_static_did(0x0102, &[1, 2, 3]));
    assert!(!c.set_static_did(0x9999, &[1, 2]));
    assert_eq!(&c.get_static_did(0x0102).unwrap()[..], &[0, 0]);
    assert!(c.set_static_did(0x0102, &[7, 8]));
    assert_eq!(&c.get_static_did(0x0102).unwrap()[..], &[7, 8]);
    assert!(c.set_static_did(0x0102, &[9, 9]));
    assert_eq!(&c.get_static_did(0x0102).unwrap()[..], &[9, 9]);
    assert_eq!(&c.get_dynamic_did(0x0102).unwrap()[..], &[0, 0]);
    assert!(c.set_dynamic_did(0x0102, &[5, 6]));
    assert!(!c.set_dynamic_did(0x0102, &[5]));
    assert_eq!(&c.get_dynamic_did(0x0102).unwrap()[..], &[5, 6]);
    assert_eq!(&c.get_static_did(0x0102).unwrap()[..], &[9, 9]);
    assert_eq!(zero_bytes(3), vec![0, 0, 0]);
}

#[test]
fn reset_forgets_dynamic_values_and_the_session() {
    let mut c = context();
    assert!(c.set_static_did(0x0102, &[7, 8]));
    assert!(c.set_dynamic_did(0x0102, &[5, 6]));
    c.session.change(SessionType::Programming);
    c.session.keep(10);
    c.session.set_security_access_level(2);
    c.set_security_algo(NoKey);
    c.reset();
    assert!(c.did_dyn.is_empty());
    assert_eq!(&c.get_static_did(0x0102).unwrap()[..], &[7, 8]);
    assert_eq!(c.session.get_session_type(), SessionType::Default);
    assert_eq!(c.session.get_security_access_level(), 0);
    assert_eq!(c.session.keep_deadline(), None);
    assert!(c.get_security_algo().is_some());
}

#[test]
fn codec_refusals_map_to_response_codes() {
    assert_eq!(uds_error_code(CodecErrorKind::InvalidDataLength), 0x13);
    for kind in [
        CodecErrorKind::ServiceError,
        CodecErrorKind::InvalidParam,
        CodecErrorKind::InvalidData,
        CodecErrorKind::DidNotSupported,
        CodecErrorKind::InvalidDynamicallyDefinedDID,
        CodecErrorKind::InvalidSessionData,
        CodecErrorKind::ReservedError,
        CodecErrorKind::SubFunctionError,
        CodecErrorKind::OtherError,
        CodecErrorKind::NotImplement,
    ] {
        assert_eq!(uds_error_code(kind), 0x10);
    }
    let length = Iso14229Error::InvalidDataLength { expect: 1, actual: 2 };
    assert_eq!(
        process_uds_error(Service::ReadDID, &length),
        Response::new_negative(Service::ReadDID, 0x13)
    );
    let service = Iso14229Error::ServiceError(iso14229_1::Service::ReadDID);
    assert_eq!(
        process_uds_error(Service::ReadDID, &service),
        Response::new_negative(Service::ReadDID, 0x10)
    );
    let errors = vec![
        Iso14229Error::InvalidParam("p".to_string()),
        Iso14229Error::InvalidData("d".to_string()),
        Iso14229Error::DidNotSupported(iso14229_1::DataIdentifier::VIN),
        Iso14229Error::InvalidDynamicallyDefinedDID(1),
        Iso14229Error::InvalidSessionData("s".to_string()),
        Iso14229Error::ReservedError(1),
        Iso14229Error::SubFunctionError(iso14229_1::Service::ReadDID),
        Iso14229Error::OtherError("o".to_string()),
        Iso14229Error::NotImplement,
    ];
    for e in errors {
        assert_eq!(
            process_uds_error(Service::WriteDID, &e),
            Response::new_negative(Service::WriteDID, 0x10)
        );
    }
}

#[test]
fn positive_response_the_codec_refuses_is_answered_negatively() {
    let mut s = DoCanServer::new(context());
    // A seed of no bytes: the codec wants a seed in the answer to a seed request.
    s.context.config.seed_len = 0;
    s.context.session.change(SessionType::Extended);
    let out = s.server(&[0x27, 0x01], 0).unwrap();
    assert_eq!(out.data, vec![0x7F, 0x27, 0x10]);
    assert_eq!(out.retry_for, Some(Service::SecurityAccess));
}

#[test]
fn communication_control_reads_its_payload() {
    let s = extended();
    let missing = with_sub(Service::CommunicationCtrl, 0x04, &[0x01]);
    assert_eq!(s.communication_ctrl(&missing).unwrap(), negative(Service::CommunicationCtrl, 0x13));
    let with_node = with_sub(Service::CommunicationCtrl, 0x04, &[0x01, 0x00, 0x0A]);
    assert_eq!(
        s.communication_ctrl(&with_node).unwrap(),
        Some(Response::positive(Service::CommunicationCtrl, Some(0x04), vec![]))
    );
    let none = plain(Service::CommunicationCtrl, &[0x01]);
    assert_eq!(s.communication_ctrl(&none).unwrap(), negative(Service::CommunicationCtrl, 0x10));
    let undefined = Request {
        service: Service::CommunicationCtrl,
        sub_function: Some(SubFunction { origin: 0x90, suppress_positive: false }),
        data: vec![0x01],
    };
    assert_eq!(
        s.communication_ctrl(&undefined).unwrap(),
        negative(Service::CommunicationCtrl, 0x12)
    );
    let silent = with_sub(Service::CommunicationCtrl, 0x81, &[0x01]);
    assert_eq!(s.communication_ctrl(&silent).unwrap(), None);
    let silent_but_wrong = with_sub(Service::CommunicationCtrl, 0x84, &[0x01]);
    assert_eq!(
        s.communication_ctrl(&silent_but_wrong).unwrap(),
        negative(Service::CommunicationCtrl, 0x13)
    );
}

#[test]
fn clear_diagnostic_information_reads_its_payload() {
    let s = DoCanServer::new(context());
    let fine = plain(Service::ClearDiagnosticInfo, &[0xFF, 0xFF, 0xFF, 0x01]);
    assert_eq!(
        s.clear_diagnostic_info(&fine).unwrap(),
        Some(Response::positive(Service::ClearDiagnosticInfo, None, vec![]))
    );
    let long = plain(Service::ClearDiagnosticInfo, &[0xFF, 0xFF, 0xFF, 0x01, 0x02]);
    assert_eq!(s.clear_diagnostic_info(&long).unwrap(), negative(Service::ClearDiagnosticInfo, 0x13));
    let short = plain(Service::ClearDiagnosticInfo, &[0xFF]);
    assert_eq!(
        s.clear_diagnostic_info(&short).unwrap(),
        negative(Service::ClearDiagnosticInfo, 0x13)
    );
}

#[test]
fn periodic_identifiers_are_read_but_not_served() {
    let s = extended();
    let fine = plain(Service::ReadDataByPeriodId, &[0x01, 0xF2]);
    assert_eq!(s.read_data_by_pid(&fine).unwrap(), negative(Service::ReadDataByPeriodId, 0x11));
    let wrong_mode = plain(Service::ReadDataByPeriodId, &[0x09, 0xF2]);
    assert_eq!(
        s.read_data_by_pid(&wrong_mode).unwrap(),
        negative(Service::ReadDataByPeriodId, 0x13)
    );
    let idle = DoCanServer::new(context());
    assert_eq!(idle.read_data_by_pid(&fine).unwrap(), negative(Service::ReadDataByPeriodId, 0x7F));
}

#[test]
fn routine_control_checks_before_it_keeps_silent() {
    let s = DoCanServer::new(context());
    let silent = with_sub(Service::RoutineCtrl, 0x81, &[0xFF, 0x00]);
    assert_eq!(s.routine_ctrl(&silent).unwrap(), None);
    let short = with_sub(Service::RoutineCtrl, 0x81, &[0xFF]);
    assert_eq!(s.routine_ctrl(&short).unwrap(), negative(Service::RoutineCtrl, 0x13));
    let undefined = with_sub(Service::RoutineCtrl, 0x84, &[0xFF, 0x00]);
    assert_eq!(s.routine_ctrl(&undefined).unwrap(), negative(Service::RoutineCtrl, 0x12));
    let none = plain(Service::RoutineCtrl, &[0xFF, 0x00]);
    assert_eq!(s.routine_ctrl(&none).unwrap(), negative(Service::RoutineCtrl, 0x10));
}

#[test]
fn ecu_reset_without_a_defined_kind_changes_nothing() {
    let mut s = extended();
    let none = plain(Service::ECUReset, &[]);
    assert_eq!(s.ecu_reset(&none).unwrap(), negative(Service::ECUReset, 0x13));
    let undefined = Request {
        service: Service::ECUReset,
        sub_function: Some(SubFunction { origin: 0x00, suppress_positive: false }),
        data: vec![],
    };
    assert_eq!(s.ecu_reset(&undefined).unwrap(), negative(Service::ECUReset, 0x12));
    assert_eq!(s.context.session.get_session_type(), SessionType::Extended);
}

#[test]
fn denied_key_leaves_the_level_locked() {
    let mut s = extended();
    s.update_security_algo(NoKey);
    let seed = s.security_access(&with_sub(Service::SecurityAccess, 0x01, &[])).unwrap().unwrap();
    assert_eq!(seed.sub_function(), Some(0x01));
    assert_eq!(seed.raw_data().len(), 2);
    let key = Request {
        service: Service::SecurityAccess,
        sub_function: Some(SubFunction { origin: 0x02, suppress_positive: false }),
        data: vec![1, 2],
    };
    assert_eq!(s.security_access(&key).unwrap(), negative(Service::SecurityAccess, 0x33));
    assert_eq!(s.context.session.get_security_access_level(), 0);
    assert!(s.context.sa_ctx.is_none());
}

#[test]
fn security_access_refuses_what_is_no_level() {
    let mut s = extended();
    let none = plain(Service::SecurityAccess, &[]);
    assert_eq!(s.security_access(&none).unwrap(), negative(Service::SecurityAccess, 0x13));
    let zero = Request {
        service: Service::SecurityAccess,
        sub_function: Some(SubFunction { origin: 0x00, suppress_positive: false }),
        data: vec![],
    };
    assert_eq!(s.security_access(&zero).unwrap(), negative(Service::SecurityAccess, 0x12));
    let high = Request {
        service: Service::SecurityAccess,
        sub_function: Some(SubFunction { origin: 0x7E, suppress_positive: false }),
        data: vec![],
    };
    assert_eq!(s.security_access(&high).unwrap(), negative(Service::SecurityAccess, 0x12));
}

#[test]
fn new_seed_replaces_the_old_challenge() {
    let mut s = extended();
    s.update_security_algo(NoKey);
    s.security_access(&with_sub(Service::SecurityAccess, 0x01, &[])).unwrap();
    s.security_access(&with_sub(Service::SecurityAccess, 0x03, &[])).unwrap();
    let (level, _) = s.context.sa_ctx.clone().unwrap();
    assert_eq!(level, 3);
    let key = Request {
        service: Service::SecurityAccess,
        sub_function: Some(SubFunction { origin: 0x02, suppress_positive: false }),
        data: vec![1, 2],
    };
    assert_eq!(s.security_access(&key).unwrap(), negative(Service::SecurityAccess, 0x22));
}

#[test]
fn stubs_answer_not_supported() {
    let s = extended();
    let r = plain(Service::ReadDTCInfo, &[]);
    assert_eq!(s.read_dtc_info(&r).unwrap(), negative(Service::ReadDTCInfo, 0x11));
    assert_eq!(s.dynamically_define_did(&r).unwrap(), negative(Service::DynamicalDefineDID, 0x11));
    assert_eq!(s.secured_data_trans(&r).unwrap(), negative(Service::SecuredDataTrans, 0x11));
    assert_eq!(s.read_scaling_did(&r).unwrap(), negative(Service::ReadScalingDID, 0x11));
    assert_eq!(s.read_mem_by_addr(&r).unwrap(), negative(Service::ReadMemByAddr, 0x11));
    assert_eq!(s.response_on_event(&r).unwrap(), negative(Service::ResponseOnEvent, 0x11));
    assert_eq!(s.request_file_transfer(&r).unwrap(), negative(Service::RequestFileTransfer, 0x11));
}

#[test]
fn transfer_services_refuse_what_the_codec_refuses() {
    let s = extended();
    let empty = plain(Service::TransferData, &[]);
    assert_eq!(s.transfer_data(&empty).unwrap(), negative(Service::TransferData, 0x13));
    let bad = plain(Service::RequestDownload, &[0x00]);
    assert_eq!(s.request_download(&bad).unwrap(), negative(Service::RequestDownload, 0x13));
    assert_eq!(s.request_upload(&bad).unwrap(), negative(Service::RequestUpload, 0x13));
    let zero_size = plain(Service::RequestDownload, &[0x00, 0x11, 0x10, 0x00]);
    assert_eq!(s.request_download(&zero_size).unwrap(), negative(Service::RequestDownload, 0x13));
    let exit = plain(Service::RequestTransferExit, &[]);
    assert_eq!(
        s.request_transfer_exit(&exit).unwrap(),
        Some(Response::positive(Service::RequestTransferExit, None, vec![]))
    );
    let io = plain(Service::IOCtrl, &[0x12, 0x34, 0x00]);
    assert_eq!(s.io_ctrl(&io).unwrap(), negative(Service::IOCtrl, 0x10));
    let mem = plain(Service::WriteMemByAddr, &[0x11, 0x10]);
    assert_eq!(s.write_mem_by_addr(&mem).unwrap(), negative(Service::WriteMemByAddr, 0x13));
}

#[test]
fn dispatch_hands_the_request_to_its_service() {
    let mut s = extended();
    let r = with_sub(Service::TesterPresent, 0x00, &[]);
    assert_eq!(
        s.dispatch(&r, 0).unwrap(),
        Some(Response::positive(Service::TesterPresent, Some(0), vec![]))
    );
    let r = plain(Service::NRC, &[]);
    assert_eq!(s.dispatch(&r, 0).unwrap(), negative(Service::NRC, 0x11));
    let r = with_sub(Service::SessionCtrl, 0x02, &[]);
    s.dispatch(&r, 100).unwrap();
    assert_eq!(s.context.session.get_session_type(), SessionType::Programming);
    assert_eq!(s.context.session.keep_deadline(), Some(5_100));
    let r = with_sub(Service::SessionCtrl, 0x01, &[]);
    s.dispatch(&r, 200).unwrap();
    assert_eq!(s.context.session.get_session_type(), SessionType::Default);
}

#[test]
fn key_request_makes_the_question_for_the_algorithm() {
    let mut s = DoCanServer::new(fresh::<Tell>());
    s.update_security_algo(Tell);
    let seed = s.security_access(&with_sub(Service::SecurityAccess, 0x05, &[])).unwrap().unwrap();
    let issued = seed.raw_data().to_vec();
    match s.security_step(&with_sub(Service::SecurityAccess, 0x06, &[9, 9])) {
        SecurityStep::Ask { challenge, seed, salt, level } => {
            assert_eq!(challenge, 5);
            assert_eq!(seed, issued);
            assert_eq!(salt, vec![1, 2, 3]);
            assert_eq!(level, 6);
        },
        _ => panic!("the key request was not put to the algorithm"),
    }
    assert!(s.context.sa_ctx.is_none());
    assert!(matches!(
        s.security_step(&with_sub(Service::SecurityAccess, 0x06, &[9, 9])),
        SecurityStep::Refuse(0x12)
    ));
    assert!(matches!(
        s.security_step(&with_sub(Service::SecurityAccess, 0x07, &[])),
        SecurityStep::IssueSeed(7)
    ));
    assert!(matches!(
        s.security_step(&plain(Service::SecurityAccess, &[])),
        SecurityStep::Refuse(0x13)
    ));
}

#[test]
fn key_request_for_another_level_uses_the_challenge_up() {
    let mut s = DoCanServer::new(fresh::<Tell>());
    s.update_security_algo(Tell);
    s.security_access(&with_sub(Service::SecurityAccess, 0x05, &[])).unwrap();
    assert!(matches!(
        s.security_step(&with_sub(Service::SecurityAccess, 0x04, &[])),
        SecurityStep::Refuse(0x22)
    ));
    assert!(s.context.sa_ctx.is_none());
}

#[test]
fn key_request_without_an_algorithm_is_refused() {
    let mut s = DoCanServer::new(fresh::<Tell>());
    s.security_access(&with_sub(Service::SecurityAccess, 0x01, &[])).unwrap();
    assert!(matches!(
        s.security_step(&with_sub(Service::SecurityAccess, 0x02, &[])),
        SecurityStep::Refuse(0x22)
    ));
}

#[test]
fn algorithm_is_asked_with_challenge_seed_and_salt() {
    let mut s = DoCanServer::new(fresh::<Tell>());
    s.update_security_algo(Tell);
    s.context.session.change(SessionType::Extended);
    s.context.session.keep(0);
    let seed = s.security_access(&with_sub(Service::SecurityAccess, 0x03, &[])).unwrap().unwrap();
    let answer = s.security_access(&with_sub(Service::SecurityAccess, 0x04, &[0])).unwrap().unwrap();
    assert!(!answer.is_negative());
    assert_eq!(answer.sub_function(), Some(0x04));
    let mut expected = vec![3];
    expected.extend_from_slice(seed.raw_data());
    expected.extend_from_slice(&[1, 2, 3]);
    assert_eq!(answer.raw_data(), expected);
    assert_eq!(s.context.session.get_security_access_level(), 3);
}

#[test]
fn input_output_control_hands_back_identifier_parameter_and_state() {
    let s = extended();
    let req = plain(Service::IOCtrl, &[0x01, 0x02, 0x03, 0xAA, 0xBB, 0xFF, 0xEE]);
    let resp = s.io_ctrl(&req).unwrap().unwrap();
    assert_eq!(resp.to_bytes(), vec![0x6F, 0x01, 0x02, 0x03, 0xAA, 0xBB]);
    let short = plain(Service::IOCtrl, &[0x01, 0x02, 0x03, 0xAA]);
    assert_eq!(s.io_ctrl(&short).unwrap(), negative(Service::IOCtrl, 0x10));
    let unknown = plain(Service::IOCtrl, &[0x0A, 0x0B, 0x03, 0xAA, 0xBB]);
    assert_eq!(s.io_ctrl(&unknown).unwrap(), negative(Service::IOCtrl, 0x10));
    let parameter = plain(Service::IOCtrl, &[0x01, 0x02, 0x04, 0xAA, 0xBB]);
    assert_eq!(s.io_ctrl(&parameter).unwrap(), negative(Service::IOCtrl, 0x10));
}

#[test]
fn write_memory_hands_back_the_location() {
    let s = extended();
    let req = plain(Service::WriteMemByAddr, &[0x12, 0x10, 0x20, 0x02, 0xAA, 0xBB]);
    let resp = s.write_mem_by_addr(&req).unwrap().unwrap();
    assert_eq!(resp.to_bytes(), vec![0x7D, 0x12, 0x10, 0x20, 0x02]);
    let wide = plain(Service::WriteMemByAddr, &[0x24, 0x00, 0x00, 0x10, 0x20, 0x00, 0x01, 0xAA]);
    let resp = s.write_mem_by_addr(&wide).unwrap().unwrap();
    assert_eq!(resp.to_bytes(), vec![0x7D, 0x24, 0x00, 0x00, 0x10, 0x20, 0x00, 0x01]);
    let short = plain(Service::WriteMemByAddr, &[0x44, 0x10, 0x20, 0x02, 0xAA, 0xBB]);
    assert_eq!(s.write_mem_by_addr(&short).unwrap(), negative(Service::WriteMemByAddr, 0x13));
    let idle = DoCanServer::new(context());
    assert_eq!(idle.write_mem_by_addr(&req).unwrap(), negative(Service::WriteMemByAddr, 0x7F));
}

#[test]
fn download_and_upload_announce_the_block_length() {
    let s = extended();
    let req = plain(Service::RequestDownload, &[0x00, 0x21, 0x10, 0x01, 0x00]);
    let resp = s.request_download(&req).unwrap().unwrap();
    assert_eq!(resp.to_bytes(), vec![0x74, 0x20, 0x01, 0x00]);
    let req = plain(Service::RequestUpload, &[0x00, 0x11, 0x10, 0x20]);
    let resp = s.request_upload(&req).unwrap().unwrap();
    assert_eq!(resp.to_bytes(), vec![0x75, 0x20, 0x00, 0x20]);
    let empty = plain(Service::RequestDownload, &[0x00, 0x11, 0x10, 0x00]);
    assert_eq!(s.request_download(&empty).unwrap(), negative(Service::RequestDownload, 0x13));
    let empty = plain(Service::RequestUpload, &[0x00, 0x11, 0x10, 0x00]);
    assert_eq!(s.request_upload(&empty).unwrap(), negative(Service::RequestUpload, 0x13));
}
