use docan_rs::buffer::{wait_step, IsoTpBuffer, IsoTpEvent, WaitStep};
use docan_rs::constants::{DEFAULT_P2_START_MS, P2_MAX, P2_STAR_MAX};
use docan_rs::error::{DeviceError, DoCanError, TransportError};
use docan_rs::message::{
    append_bytes, copy_bytes, sub_function_byte, Address, AddressType, Request, Response,
    Service, SubFunction,
};
use docan_rs::server::session::SessionManager;
use docan_rs::server::util::gen_seed;
use docan_rs::subfunction::{is_request_seed, sub_function_defined, SessionType};
use docan_rs::timing::{ByteOrder, SessionTiming, TimingContext};

#[test]
fn every_service_is_found_again_from_its_byte() {
    let mut known = 0;
    for b in 0..=255u8 {
        if let Some(service) = Service::from_byte(b) {
            assert_eq!(service.to_byte(), b);
            known += 1;
        }
    }
    assert_eq!(known, 27);
    assert_eq!(Service::from_byte(0x22), Some(Service::ReadDID));
    assert_eq!(Service::from_byte(0x7F), Some(Service::NRC));
    assert_eq!(Service::from_byte(0xF0), None);
    assert!(Service::SessionCtrl.has_sub_function());
    assert!(!Service::ReadDID.has_sub_function());
}

#[test]
fn address_picks_the_identifier_of_the_addressing() {
    let a = Address::default();
    assert_eq!(a, Address { tx_id: 0x7E0, rx_id: 0x7E8, fid: 0x7DF });
    assert_eq!(a.target(AddressType::Physical), 0x7E0);
    assert_eq!(a.target(AddressType::Functional), 0x7DF);
}

#[test]
fn sub_function_byte_carries_the_suppress_bit() {
    assert_eq!(sub_function_byte(0x03, false), 0x03);
    assert_eq!(sub_function_byte(0x03, true), 0x83);
    let sf = SubFunction { origin: 0x83, suppress_positive: true };
    assert_eq!(sf.function(), 0x03);
    assert!(sf.is_suppress_positive());
    let level = SubFunction { origin: 0x83, suppress_positive: false };
    assert_eq!(level.function(), 0x83);
}

#[test]
fn request_bytes_are_service_sub_function_payload() {
    let r = Request {
        service: Service::RoutineCtrl,
        sub_function: Some(SubFunction { origin: 0x01, suppress_positive: false }),
        data: vec![0xFF, 0x00],
    };
    assert_eq!(r.to_bytes(), vec![0x31, 0x01, 0xFF, 0x00]);
    let r = Request { service: Service::ReadDID, sub_function: None, data: vec![0xF1, 0x90] };
    assert_eq!(r.to_bytes(), vec![0x22, 0xF1, 0x90]);
}

#[test]
fn response_bytes_tell_positive_from_negative() {
    let positive = Response::positive(Service::SessionCtrl, Some(3), vec![0, 50, 0, 200]);
    assert_eq!(positive.to_bytes(), vec![0x50, 0x03, 0x00, 0x32, 0x00, 0xC8]);
    assert_eq!(positive.nrc_code(), None);
    let bare = Response::positive(Service::WriteDID, None, vec![0xF1, 0x90]);
    assert_eq!(bare.to_bytes(), vec![0x6E, 0xF1, 0x90]);
    let negative = Response::new_negative(Service::ReadDID, 0x31);
    assert!(negative.is_negative());
    assert_eq!(negative.nrc_code(), Some(0x31));
    assert_eq!(negative.sub_function(), None);
    assert_eq!(negative.raw_data(), &[0x31]);
    assert_eq!(negative.to_bytes(), vec![0x7F, 0x22, 0x31]);
    assert_eq!(negative.clone(), negative);
}

#[test]
fn negative_response_with_the_code_of_success_is_positive() {
    let r = Response::new_negative(Service::ReadDID, 0x00);
    assert!(!r.is_negative());
    assert_eq!(r.raw_data(), &[] as &[u8]);
    assert_eq!(r.to_bytes(), vec![0x62]);
}

#[test]
fn bytes_are_copied_and_appended() {
    assert_eq!(copy_bytes(&[1, 2, 3]), vec![1, 2, 3]);
    let mut v = vec![9];
    append_bytes(&mut v, &[1, 2]);
    assert_eq!(v, vec![9, 1, 2]);
    append_bytes(&mut v, &[]);
    assert_eq!(v, vec![9, 1, 2]);
}

#[test]
fn defined_sub_functions() {
    assert!(sub_function_defined(Service::SessionCtrl, 0x01));
    assert!(sub_function_defined(Service::SessionCtrl, 0x7F));
    assert!(!sub_function_defined(Service::SessionCtrl, 0x00));
    assert!(!sub_function_defined(Service::SessionCtrl, 0x80));
    assert!(sub_function_defined(Service::CommunicationCtrl, 0x00));
    assert!(sub_function_defined(Service::SecurityAccess, 0x7D));
    assert!(!sub_function_defined(Service::SecurityAccess, 0x7E));
    assert!(!sub_function_defined(Service::SecurityAccess, 0x00));
    assert!(sub_function_defined(Service::TesterPresent, 0x00));
    assert!(!sub_function_defined(Service::TesterPresent, 0x01));
    assert!(sub_function_defined(Service::RoutineCtrl, 0x03));
    assert!(!sub_function_defined(Service::RoutineCtrl, 0x04));
    assert!(sub_function_defined(Service::Authentication, 0x08));
    assert!(!sub_function_defined(Service::Authentication, 0x09));
    assert!(!sub_function_defined(Service::ReadDID, 0x01));
    assert!(is_request_seed(1));
    assert!(!is_request_seed(2));
}

#[test]
fn session_types_and_their_bytes() {
    assert_eq!(SessionType::from_byte(0x01), Some(SessionType::Default));
    assert_eq!(SessionType::from_byte(0x02), Some(SessionType::Programming));
    assert_eq!(SessionType::from_byte(0x03), Some(SessionType::Extended));
    assert_eq!(SessionType::from_byte(0x04), Some(SessionType::SafetySystemDiagnostic));
    assert_eq!(SessionType::from_byte(0x05), Some(SessionType::Reserved(0x05)));
    assert_eq!(SessionType::from_byte(0x40), Some(SessionType::VehicleManufacturerSpecific(0x40)));
    assert_eq!(SessionType::from_byte(0x60), Some(SessionType::SystemSupplierSpecific(0x60)));
    assert_eq!(SessionType::from_byte(0x7F), Some(SessionType::Reserved(0x7F)));
    assert_eq!(SessionType::from_byte(0x00), None);
    assert_eq!(SessionType::from_byte(0x80), None);
    for b in 1..=0x7Fu8 {
        assert_eq!(SessionType::from_byte(b).unwrap().to_byte(), b);
    }
    assert_eq!(SessionType::default(), SessionType::Default);
    assert!(SessionType::Default.is_default());
    assert!(!SessionType::Extended.is_default());
}

#[test]
fn timing_is_cut_down_and_counted_in_milliseconds() {
    assert_eq!(P2_MAX, 50);
    assert_eq!(P2_STAR_MAX, 500);
    assert_eq!(DEFAULT_P2_START_MS, 5_000);
    let d = SessionTiming::default();
    assert_eq!((d.p2_ms(), d.p2_star_ms()), (50, 5000));
    let t = SessionTiming::new(40, 2000);
    assert_eq!(t, SessionTiming { p2: 40, p2_star: 200 });
    assert_eq!((t.p2_ms(), t.p2_star_ms()), (40, 2000));
    assert_eq!(SessionTiming::new(51, 5010), SessionTiming { p2: 50, p2_star: 500 });
    assert_eq!(SessionTiming::new(0, 9), SessionTiming { p2: 0, p2_star: 0 });
}

#[test]
fn timing_bytes_follow_the_byte_order() {
    let t = SessionTiming { p2: 0x0032, p2_star: 0x01C8 };
    assert_eq!(t.to_bytes(ByteOrder::Big), vec![0x00, 0x32, 0x01, 0xC8]);
    assert_eq!(t.to_bytes(ByteOrder::Little), vec![0x32, 0x00, 0xC8, 0x01]);
    assert_eq!(t.to_bytes_with(false), vec![0x00, 0x32, 0x01, 0xC8]);
    let native = t.to_bytes(ByteOrder::Native);
    assert!(native == t.to_bytes(ByteOrder::Big) || native == t.to_bytes(ByteOrder::Little));
    assert_eq!(ByteOrder::default(), ByteOrder::Little);
}

#[test]
fn client_waits_by_p2_plus_offset_or_by_p2_star() {
    let mut c = TimingContext::new(Some(25));
    assert_eq!(c.timeout_ms(false), 75);
    assert_eq!(c.timeout_ms(true), 5000);
    c.update(SessionTiming { p2: 20, p2_star: 100 });
    assert_eq!(c.timeout_ms(false), 45);
    assert_eq!(c.timeout_ms(true), 1000);
    let plain = TimingContext::new(None);
    assert_eq!(plain.timeout_ms(false), 50);
    let far = TimingContext { timing: SessionTiming { p2: 0xFFFF, p2_star: 0xFFFF }, p2_offset: 0xFFFF };
    assert_eq!(far.timeout_ms(false), 131_070);
    assert_eq!(far.timeout_ms(true), 655_350);
}

#[test]
fn session_manager_keeps_and_drops_the_session() {
    let mut m = SessionManager::new(None);
    assert_eq!(m.get_session_type(), SessionType::Default);
    assert_eq!(m.keep_duration(), 5_000);
    assert_eq!(SessionManager::new(Some(2)).keep_duration(), 2_000);
    assert_eq!(SessionManager::new(Some(u64::MAX)).keep_duration(), u64::MAX);
    assert_eq!(SessionManager::default().keep_duration(), 5_000);

    m.change(SessionType::Extended);
    m.keep(100);
    assert_eq!(m.keep_deadline(), Some(5_100));
    m.set_security_access_level(3);
    assert_eq!(m.get_security_access_level(), 3);
    assert!(!m.work(5_099));
    assert_eq!(m.get_session_type(), SessionType::Extended);
    m.keep(4_000);
    assert!(!m.work(5_100));
    assert!(m.work(9_000));
    assert_eq!(m.get_session_type(), SessionType::Default);
    assert_eq!(m.get_security_access_level(), 0);
    assert_eq!(m.keep_deadline(), None);
    assert!(!m.work(20_000));
}

#[test]
fn default_session_has_no_security_level() {
    let mut m = SessionManager::new(None);
    m.set_security_access_level(5);
    assert_eq!(m.get_security_access_level(), 0);
    m.set_session_type(SessionType::Programming);
    m.set_security_access_level(5);
    assert_eq!(m.get_security_access_level(), 5);
    m.change(SessionType::Default);
    assert_eq!(m.get_security_access_level(), 0);
    m.change(SessionType::Programming);
    m.set_security_access_level(5);
    m.keep(u64::MAX - 1);
    assert_eq!(m.keep_deadline(), Some(u64::MAX));
    m.reset();
    assert_eq!(m.get_session_type(), SessionType::Default);
    assert_eq!(m.get_security_access_level(), 0);
    assert_eq!(m.keep_deadline(), None);
    let copy = m.clone();
    assert_eq!(copy.get_session_type(), SessionType::Default);
}

#[test]
fn seed_has_the_length_asked_for() {
    assert_eq!(gen_seed(0).len(), 0);
    assert_eq!(gen_seed(4).len(), 4);
    let long = gen_seed(4096);
    assert_eq!(long.len(), 4096);
    assert!(long.iter().any(|b| *b != long[0]));
    assert_ne!(gen_seed(32), gen_seed(32));
}

#[test]
fn buffer_hands_events_out_in_order() {
    let mut b = IsoTpBuffer::default();
    assert_eq!(b.get(), None);
    b.set(IsoTpEvent::FirstFrameReceived);
    b.set(IsoTpEvent::DataReceived(vec![1, 2]));
    b.set(IsoTpEvent::Wait);
    assert_eq!(b.len(), 3);
    assert_eq!(b.get(), Some(IsoTpEvent::FirstFrameReceived));
    assert_eq!(b.get(), Some(IsoTpEvent::DataReceived(vec![1, 2])));
    b.clear();
    assert_eq!(b.len(), 0);
    assert_eq!(b.get(), None);
}

#[test]
fn waiting_client_reads_the_buffer() {
    let mut b = IsoTpBuffer::default();
    assert_eq!(wait_step(&mut b, 100, 150, 50), WaitStep::Continue { start: 100 });
    b.set(IsoTpEvent::Wait);
    assert_eq!(wait_step(&mut b, 100, 150, 50), WaitStep::Continue { start: 150 });
    b.set(IsoTpEvent::FirstFrameReceived);
    assert_eq!(wait_step(&mut b, 150, 160, 50), WaitStep::Continue { start: 160 });
    b.set(IsoTpEvent::DataReceived(vec![7]));
    b.set(IsoTpEvent::Wait);
    assert_eq!(wait_step(&mut b, 160, 170, 50), WaitStep::Deliver(vec![7]));
    assert_eq!(b.len(), 1);
    assert_eq!(
        wait_step(&mut b, 160, 211, 50),
        WaitStep::Fail(TransportError::Timeout { value: 50, unit: "ms".to_string() })
    );
    assert_eq!(b.len(), 0);
    b.set(IsoTpEvent::ErrorOccurred(TransportError::OverloadFlow));
    b.set(IsoTpEvent::Wait);
    assert_eq!(wait_step(&mut b, 0, 1, 50), WaitStep::Fail(TransportError::OverloadFlow));
    assert_eq!(b.len(), 0);
    assert_eq!(wait_step(&mut b, 10, 5, 0), WaitStep::Continue { start: 10 });
}

#[test]
fn errors_wrap_their_cause() {
    assert!(matches!(
        DoCanError::from(DeviceError::NotSupportedError),
        DoCanError::DeviceError(DeviceError::NotSupportedError)
    ));
    assert!(matches!(
        DoCanError::from(TransportError::EmptyPdu),
        DoCanError::IsoTpError(TransportError::EmptyPdu)
    ));
    let codec = iso14229_1::Iso14229Error::NotImplement;
    assert!(matches!(DoCanError::from(codec), DoCanError::Iso14229Error(_)));
    assert!(TransportError::Timeout { value: 1, unit: "ms".to_string() }.is_timeout());
    assert!(!TransportError::EmptyPdu.is_timeout());
    assert_eq!(TransportError::InvalidSequence { actual: 1, expect: 2 }.nrc(), Some(0x73));
    assert_eq!(TransportError::DeviceError.nrc(), None);
}
