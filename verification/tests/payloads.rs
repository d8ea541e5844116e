use docan_rs::client::client_impl::DoCanClient;
use docan_rs::error::DoCanError;
use docan_rs::message::{AddressType, Service};
use docan_rs::security::SecurityAlgo;
use docan_rs::timing::ByteOrder;
use iso14229_1::Iso14229Error;

struct NoAlgo;

impl SecurityAlgo for NoAlgo {
    fn compute(&self, _level: u8, _seed: &[u8], _salt: &[u8]) -> Result<Option<Vec<u8>>, String> {
        Ok(None)
    }
}

/// A small generator of bytes, the same on every run.
struct Source(u64);

impl Source {
    fn next(&mut self) -> u8 {
        self.0 = self.0.wrapping_mul(6364136223846793005).wrapping_add(1442695040888963407);
        (self.0 >> 33) as u8
    }

    fn take(&mut self, len: usize) -> Vec<u8> {
        (0..len).map(|_| self.next()).collect()
    }

    fn wide(&mut self) -> u128 {
        let bytes: [u8; 16] = self.take(16).try_into().unwrap();
        let value = u128::from_be_bytes(bytes);
        match self.next() % 4 {
            0 => 0,
            1 => value & 0xFFFF,
            2 => value & 0xFFFF_FFFF_FFFF,
            _ => value,
        }
    }
}

fn client() -> DoCanClient<NoAlgo> {
    let mut c = DoCanClient::new(ByteOrder::Big, None);
    assert!(c.add_data_identifier(0xF190, 17));
    assert!(c.add_data_identifier(0x0102, 2));
    assert!(c.add_data_identifier(0x0001, 0));
    c
}

/// The memory location as it travels.
fn location(format: u8, address: u128, size: u128) -> Vec<u8> {
    let mut out = vec![format];
    out.extend_from_slice(&address.to_be_bytes()[16 - (format & 0x0F) as usize..]);
    out.extend_from_slice(&size.to_be_bytes()[16 - (format >> 4) as usize..]);
    out
}

fn is_invalid_param<T: std::fmt::Debug>(r: Result<T, DoCanError>) -> bool {
    matches!(r, Err(DoCanError::Iso14229Error(Iso14229Error::InvalidParam(_))))
}

fn is_reserved<T: std::fmt::Debug>(r: Result<T, DoCanError>) -> bool {
    matches!(r, Err(DoCanError::Iso14229Error(Iso14229Error::ReservedError(_))))
}

#[test]
fn communication_control_names_a_node_where_its_type_does() {
    let c = client();
    for ctrl_type in 0..=255u8 {
        for node in [None, Some(0u16), Some(0x0102), Some(0xFFFF)] {
            for comm_type in [0x00u8, 0x01, 0x03, 0xF2] {
                let r = c.communication_control(
                    ctrl_type,
                    comm_type,
                    node,
                    false,
                    AddressType::Physical,
                );
                if ctrl_type > 0x7F || node == Some(0) {
                    assert!(is_reserved(r));
                } else if ctrl_type == 4 || ctrl_type == 5 {
                    match node {
                        None => assert!(is_invalid_param(r)),
                        Some(n) => {
                            let (call, request) = r.unwrap();
                            assert_eq!(call.function, Some(ctrl_type));
                            let mut expected = vec![0x28, ctrl_type, comm_type];
                            expected.extend_from_slice(&n.to_be_bytes());
                            assert_eq!(request.to_bytes(), expected);
                        },
                    }
                } else {
                    let (_, request) = r.unwrap();
                    assert_eq!(request.to_bytes(), vec![0x28, ctrl_type, comm_type]);
                }
            }
        }
    }
}

#[test]
fn clear_request_holds_three_bytes_of_the_group() {
    let c = client();
    let mut bytes = Source(31);
    for _ in 0..300 {
        let raw: [u8; 4] = bytes.take(4).try_into().unwrap();
        let group = u32::from_be_bytes(raw);
        let (call, request) = c.clear_dtc_info(group, None, AddressType::Functional).unwrap();
        assert_eq!(call.service, Service::ClearDiagnosticInfo);
        assert_eq!(call.addr_type, AddressType::Functional);
        assert_eq!(request.to_bytes(), vec![0x14, raw[1], raw[2], raw[3]]);
        let memory = bytes.next();
        let (_, request) = c.clear_dtc_info(group, Some(memory), AddressType::Physical).unwrap();
        assert_eq!(request.to_bytes(), vec![0x14, raw[1], raw[2], raw[3], memory]);
    }
}

#[test]
fn periodic_read_wants_a_mode_and_an_identifier() {
    let c = client();
    let mut bytes = Source(32);
    for mode in 0..=255u8 {
        for len in 0..4 {
            let dids = bytes.take(len);
            let r = c.read_data_by_period_identifier(mode, &dids);
            if !(1..=4).contains(&mode) {
                assert!(is_reserved(r));
            } else if dids.is_empty() {
                assert!(is_invalid_param(r));
            } else if let Ok((_, request)) = r {
                let mut expected = vec![0x2A, mode];
                expected.extend_from_slice(&dids);
                assert_eq!(request.to_bytes(), expected);
            } else {
                // The request itself is refused where the mode and the number
                // of identifiers do not go together.
                assert!(matches!(r, Err(DoCanError::Iso14229Error(_))));
            }
        }
    }
    let (_, request) = c.read_data_by_period_identifier(0x01, &[0xE3]).unwrap();
    assert_eq!(request.to_bytes(), vec![0x2A, 0x01, 0xE3]);
}

#[test]
fn io_control_carries_a_state_only_for_an_adjustment() {
    let c = client();
    let known = [(0xF190u16, 17usize), (0x0102, 2), (0x0001, 0)];
    let mut bytes = Source(33);
    let mut built = 0;
    for round in 0..4000usize {
        let did = if round % 4 == 0 {
            u16::from_be_bytes([bytes.next(), bytes.next()])
        } else {
            known[round % 3].0
        };
        let param = bytes.next() % 6;
        let state_len = (bytes.next() % 20) as usize * (round % 2);
        let state = bytes.take(state_len);
        let mask_len = (bytes.next() % 3) as usize;
        let mask = bytes.take(mask_len);
        let length = known.iter().find(|p| p.0 == did).map(|p| p.1);
        let r = c.io_control(did, param, &state, &mask);
        if param > 3 {
            assert!(is_reserved(r));
        } else if param != 3 && !state.is_empty() {
            assert!(is_invalid_param(r));
        } else if param == 3 && length.is_none() {
            assert!(matches!(
                r,
                Err(DoCanError::Iso14229Error(Iso14229Error::DidNotSupported(_)))
            ));
        } else if param == 3 && state.len() < length.unwrap() {
            assert!(matches!(
                r,
                Err(DoCanError::Iso14229Error(Iso14229Error::InvalidDataLength { .. }))
            ));
        } else if let Ok((_, request)) = r {
            built += 1;
            let mut expected = vec![0x2F];
            expected.extend_from_slice(&did.to_be_bytes());
            expected.push(param);
            expected.extend_from_slice(&state);
            expected.extend_from_slice(&mask);
            assert_eq!(request.to_bytes(), expected);
        } else {
            assert!(matches!(r, Err(DoCanError::Iso14229Error(_))));
        }
    }
    assert!(built > 200);
}

#[test]
fn download_and_upload_name_a_memory_location() {
    let c = client();
    let mut bytes = Source(34);
    let mut built = 0;
    for round in 0..4000usize {
        let format = if round % 3 == 0 { bytes.next() & 0xF3 } else { bytes.next() };
        let address = bytes.wide();
        let size = bytes.wide();
        let data_format = bytes.next();
        let valid = format & 0x0F != 0 && format >> 4 != 0 && address != 0 && size != 0;
        let down = c.request_download(format, address, size, data_format);
        let up = c.request_upload(format, address, size, data_format);
        if !valid {
            assert!(is_invalid_param(down));
            assert!(is_invalid_param(up));
            continue;
        }
        built += 1;
        let mut expected = vec![0x34, data_format];
        expected.extend_from_slice(&location(format, address, size));
        assert_eq!(down.unwrap().1.to_bytes(), expected);
        expected[0] = 0x35;
        assert_eq!(up.unwrap().1.to_bytes(), expected);
    }
    assert!(built > 500);
}

#[test]
fn written_record_is_as_long_as_the_size_says() {
    let c = client();
    let mut bytes = Source(35);
    let mut built = 0;
    for round in 0..4000usize {
        let format = if round % 5 == 0 { bytes.next() & 0x3F } else { 0x10 | (1 + bytes.next() % 4) };
        let address = bytes.wide();
        let record_len = (bytes.next() % 12) as usize;
        let record = bytes.take(record_len);
        let size = match round % 3 {
            0 => bytes.wide(),
            1 => record.len() as u128 + ((bytes.next() % 2) as u128) * (1u128 << 64),
            _ => record.len() as u128,
        };
        let fits = record.len() == (size % (usize::MAX as u128 + 1)) as usize;
        let valid = format & 0x0F != 0 && format >> 4 != 0 && address != 0 && size != 0;
        let r = c.write_memory_by_address(format, address, size, &record);
        if !(valid && fits) {
            assert!(is_invalid_param(r));
            continue;
        }
        let mut expected = vec![0x3D];
        expected.extend_from_slice(&location(format, address, size));
        expected.extend_from_slice(&record);
        match r {
            Ok((call, request)) => {
                built += 1;
                assert_eq!(call.service, Service::WriteMemByAddr);
                assert_eq!(request.to_bytes(), expected);
            },
            // A payload of less than five bytes is refused as a request.
            Err(e) => {
                assert!(expected.len() < 6);
                assert!(matches!(e, DoCanError::Iso14229Error(_)));
            },
        }
    }
    assert!(built > 200);
}
