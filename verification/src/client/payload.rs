//! The payloads of the requests whose parts the codec puts together: what
//! each of them holds, and when the codec refuses the parts.

use crate::codec::{codec_error_kind_of, CodecErrorKind, DidConfig};
use crate::timing::{hi, lo};
use iso14229_1::request as codec_request;
use iso14229_1::utils::U24;
use iso14229_1::{
    AddressAndLengthFormatIdentifier, CommunicationCtrlType, CommunicationType, Configuration,
    DataFormatIdentifier, DataIdentifier, IOCtrlParameter, Iso14229Error, MemoryLocation,
};
use vstd::prelude::*;

verus! {

/// The `count` low bytes of a value, highest first.
pub open spec fn be_bytes(value: u128, count: nat) -> Seq<u8> {
    Seq::new(count, |i: int| ((value >> ((8 * (count - 1 - i)) as u128)) & 0xFF) as u8)
}

/// A memory location as it travels: the format byte, then the address and
/// the size, each as long as its half of the format byte says.
pub open spec fn memory_location_bytes(format: u8, address: u128, size: u128) -> Seq<u8> {
    seq![format] + be_bytes(address, (format & 0x0F) as nat) + be_bytes(size, (format >> 4) as nat)
}

/// Whether format byte, address and size make a memory location: address and
/// size each take at least one byte, and neither is zero.
pub open spec fn memory_location_valid(format: u8, address: u128, size: u128) -> bool {
    format & 0x0F != 0 && format >> 4 != 0 && address != 0 && size != 0
}

/// What a codec call that makes a payload returned, as plain values.
pub open spec fn made(r: Result<Vec<u8>, Iso14229Error>) -> Result<Seq<u8>, CodecErrorKind> {
    match r {
        Ok(v) => Ok(v@),
        Err(e) => Err(codec_error_kind_of(e)),
    }
}

/// The payload of a CommunicationControl request: the communication type,
/// and the node where the control type is one of the two that name a node.
/// A control type above `0x7F` and the node zero are reserved; a control
/// type that names a node needs one.
pub open spec fn communication_ctrl_payload(
    ctrl_type: u8,
    comm_type: u8,
    node_id: Option<u16>,
) -> Result<Seq<u8>, CodecErrorKind> {
    if ctrl_type > 0x7F || node_id == Some(0u16) {
        Err(CodecErrorKind::ReservedError)
    } else if ctrl_type == 0x04 || ctrl_type == 0x05 {
        match node_id {
            Some(node) => Ok(seq![comm_type, hi(node), lo(node)]),
            None => Err(CodecErrorKind::InvalidParam),
        }
    } else {
        Ok(seq![comm_type])
    }
}

/// Calls `CommunicationCtrlType::try_from`, `request::NodeId::try_from`,
/// `request::CommunicationCtrl::new` and turns the value into bytes. Claims
/// that the result is what `communication_ctrl_payload` says.
#[verifier::external_body]
pub(crate) fn codec_communication_ctrl_payload(
    ctrl_type: u8,
    comm_type: u8,
    node_id: Option<u16>,
) -> (r: Result<Vec<u8>, Iso14229Error>)
    ensures
        made(r) == communication_ctrl_payload(ctrl_type, comm_type, node_id),
{
    let ctrl = CommunicationCtrlType::try_from(ctrl_type)?;
    let node = match node_id {
        Some(n) => Some(codec_request::NodeId::try_from(n)?),
        None => None,
    };
    let comm = CommunicationType::from_bits_retain(comm_type);
    Ok(codec_request::CommunicationCtrl::new(ctrl, comm, node)?.into())
}

/// The payload of a ClearDiagnosticInformation request: the three low bytes
/// of the group, highest first, and the memory selection where one is given.
pub open spec fn clear_dtc_payload(group: u32, mem_sel: Option<u8>) -> Seq<u8> {
    be_bytes(group as u128, 3) + match mem_sel {
        Some(memory) => seq![memory],
        None => Seq::empty(),
    }
}

/// Calls `U24::new`, `request::ClearDiagnosticInfo::new` and turns the value
/// into bytes. Claims that the bytes are `clear_dtc_payload`.
#[verifier::external_body]
pub(crate) fn codec_clear_dtc_payload(group: u32, mem_sel: Option<u8>) -> (v: Vec<u8>)
    ensures
        v@ == clear_dtc_payload(group, mem_sel),
{
    codec_request::ClearDiagnosticInfo::new(U24::new(group), mem_sel).into()
}

/// The payload of a ReadDataByPeriodicIdentifier request: the transmission
/// mode, one of the four that are defined, and at least one identifier.
pub open spec fn periodic_payload(mode: u8, dids: Seq<u8>) -> Result<Seq<u8>, CodecErrorKind> {
    if !(0x01 <= mode <= 0x04) {
        Err(CodecErrorKind::ReservedError)
    } else if dids.len() == 0 {
        Err(CodecErrorKind::InvalidParam)
    } else {
        Ok(seq![mode] + dids)
    }
}

/// Calls `request::TransmissionMode::try_from`,
/// `request::ReadDataByPeriodId::new` and turns the value into bytes. Claims
/// that the result is what `periodic_payload` says.
#[verifier::external_body]
pub(crate) fn codec_periodic_payload(mode: u8, dids: &[u8]) -> (r: Result<
    Vec<u8>,
    Iso14229Error,
>)
    ensures
        made(r) == periodic_payload(mode, dids@),
{
    let mode = codec_request::TransmissionMode::try_from(mode)?;
    Ok(codec_request::ReadDataByPeriodId::new(mode, dids.to_vec())?.into())
}

/// The payload of an InputOutputControlByIdentifier request: identifier,
/// control parameter, state and mask. The parameter is one of the four that
/// are defined. Only the short-term adjustment, `0x03`, carries a state: its
/// identifier is configured and the state is at least as long as the value
/// configured for it.
pub open spec fn io_control_payload(
    did: u16,
    param: u8,
    state: Seq<u8>,
    mask: Seq<u8>,
    dids: Map<u16, usize>,
) -> Result<Seq<u8>, CodecErrorKind> {
    if param > 0x03 {
        Err(CodecErrorKind::ReservedError)
    } else if param != 0x03 && state.len() != 0 {
        Err(CodecErrorKind::InvalidParam)
    } else if param == 0x03 && !dids.contains_key(did) {
        Err(CodecErrorKind::DidNotSupported)
    } else if param == 0x03 && state.len() < dids[did] {
        Err(CodecErrorKind::InvalidDataLength)
    } else {
        Ok(seq![hi(did), lo(did), param] + state + mask)
    }
}

/// Calls `IOCtrlParameter::try_from`, `request::IOCtrl::new` and turns the
/// value into bytes. Claims that the result is what `io_control_payload`
/// says.
#[verifier::external_body]
pub(crate) fn codec_io_control_payload(
    did: u16,
    param: u8,
    state: &[u8],
    mask: &[u8],
    cfg: &DidConfig,
) -> (r: Result<Vec<u8>, Iso14229Error>)
    ensures
        made(r) == io_control_payload(did, param, state@, mask@, cfg@),
{
    let map = cfg.map.iter().map(|(k, v)| (DataIdentifier::from(*k), *v)).collect();
    let cfg = Configuration { did: map, dtc: Default::default() };
    let param = IOCtrlParameter::try_from(param)?;
    let did = DataIdentifier::from(did);
    Ok(codec_request::IOCtrl::new(did, param, state.to_vec(), mask.to_vec(), &cfg)?.into())
}

/// The payload of a RequestDownload or RequestUpload request: the data
/// format, then the memory location.
pub open spec fn load_payload(data_format: u8, format: u8, address: u128, size: u128) -> Result<
    Seq<u8>,
    CodecErrorKind,
> {
    if memory_location_valid(format, address, size) {
        Ok(seq![data_format] + memory_location_bytes(format, address, size))
    } else {
        Err(CodecErrorKind::InvalidParam)
    }
}

/// Calls `AddressAndLengthFormatIdentifier::try_from`, `MemoryLocation::new`
/// and turns `request::RequestDownload` of it into bytes. Claims that the
/// result is what `load_payload` says.
#[verifier::external_body]
pub(crate) fn codec_download_payload(data_format: u8, format: u8, address: u128, size: u128) -> (r:
    Result<Vec<u8>, Iso14229Error>)
    ensures
        made(r) == load_payload(data_format, format, address, size),
{
    let format = AddressAndLengthFormatIdentifier::try_from(format)?;
    let mem_loc = MemoryLocation::new(format, address, size)?;
    let dfi = DataFormatIdentifier::from(data_format);
    Ok(codec_request::RequestDownload { dfi, mem_loc }.into())
}

/// Calls `AddressAndLengthFormatIdentifier::try_from`, `MemoryLocation::new`
/// and turns `request::RequestUpload` of it into bytes. Claims that the
/// result is what `load_payload` says.
#[verifier::external_body]
pub(crate) fn codec_upload_payload(data_format: u8, format: u8, address: u128, size: u128) -> (r:
    Result<Vec<u8>, Iso14229Error>)
    ensures
        made(r) == load_payload(data_format, format, address, size),
{
    let format = AddressAndLengthFormatIdentifier::try_from(format)?;
    let mem_loc = MemoryLocation::new(format, address, size)?;
    let dfi = DataFormatIdentifier::from(data_format);
    Ok(codec_request::RequestUpload { dfi, mem_loc }.into())
}

/// The payload of a WriteMemoryByAddress request: the memory location, then
/// the record. The record is as long as the size says, where the size is
/// taken as a length of this machine.
pub open spec fn write_memory_payload(
    format: u8,
    address: u128,
    size: u128,
    record: Seq<u8>,
) -> Result<Seq<u8>, CodecErrorKind> {
    if memory_location_valid(format, address, size) && record.len() == (size as int) % (usize::MAX + 1) {
        Ok(memory_location_bytes(format, address, size) + record)
    } else {
        Err(CodecErrorKind::InvalidParam)
    }
}

/// Calls `AddressAndLengthFormatIdentifier::try_from`,
/// `request::WriteMemByAddr::new` and turns the value into bytes. Claims
/// that the result is what `write_memory_payload` says.
#[verifier::external_body]
pub(crate) fn codec_write_memory_payload(
    format: u8,
    address: u128,
    size: u128,
    record: &[u8],
) -> (r: Result<Vec<u8>, Iso14229Error>)
    ensures
        made(r) == write_memory_payload(format, address, size, record@),
{
    let format = AddressAndLengthFormatIdentifier::try_from(format)?;
    Ok(codec_request::WriteMemByAddr::new(format, address, size, record.to_vec())?.into())
}

} // verus!
