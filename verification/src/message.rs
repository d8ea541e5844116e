//! The values that travel between client and server: service identifiers,
//! requests and responses, and their wire form.

use crate::constants::{POSITIVE_OFFSET, SUPPRESS_POSITIVE};
use crate::nrc;
use vstd::prelude::*;

verus! {

/// How a request is addressed on the bus.
#[derive(Clone, Copy, Debug, PartialEq, Eq, Structural)]
pub enum AddressType {
    Physical,
    Functional,
}

/// The three identifiers of an endpoint: where it sends, where it listens, and
/// the broadcast identifier for functional requests.
#[derive(Clone, Copy, Debug, PartialEq, Eq, Structural)]
pub struct Address {
    pub tx_id: u32,
    pub rx_id: u32,
    pub fid: u32,
}

impl Address {
    /// The identifier a request of the given addressing goes out on.
    pub open spec fn spec_target(self, addr_type: AddressType) -> u32 {
        match addr_type {
            AddressType::Physical => self.tx_id,
            AddressType::Functional => self.fid,
        }
    }

    #[verifier::when_used_as_spec(spec_target)]
    pub fn target(self, addr_type: AddressType) -> (id: u32)
        ensures
            id == self.spec_target(addr_type),
    {
        match addr_type {
            AddressType::Physical => self.tx_id,
            AddressType::Functional => self.fid,
        }
    }
}

impl Default for Address {
    fn default() -> (a: Address)
        ensures
            a == (Address { tx_id: 0x7E0, rx_id: 0x7E8, fid: 0x7DF }),
    {
        Address { tx_id: 0x7E0, rx_id: 0x7E8, fid: 0x7DF }
    }
}

/// A diagnostic service. `NRC` is the marker of a negative response, never a
/// service a client may ask for.
#[derive(Clone, Copy, Debug, PartialEq, Eq, Structural)]
pub enum Service {
    SessionCtrl,
    ECUReset,
    ClearDiagnosticInfo,
    ReadDTCInfo,
    ReadDID,
    ReadMemByAddr,
    ReadScalingDID,
    SecurityAccess,
    CommunicationCtrl,
    Authentication,
    ReadDataByPeriodId,
    DynamicalDefineDID,
    WriteDID,
    IOCtrl,
    RoutineCtrl,
    RequestDownload,
    RequestUpload,
    TransferData,
    RequestTransferExit,
    RequestFileTransfer,
    WriteMemByAddr,
    TesterPresent,
    SecuredDataTrans,
    CtrlDTCSetting,
    ResponseOnEvent,
    LinkCtrl,
    NRC,
}

impl Service {
    /// The service identifier byte of a request.
    pub open spec fn byte(self) -> u8 {
        match self {
            Service::SessionCtrl => 0x10,
            Service::ECUReset => 0x11,
            Service::ClearDiagnosticInfo => 0x14,
            Service::ReadDTCInfo => 0x19,
            Service::ReadDID => 0x22,
            Service::ReadMemByAddr => 0x23,
            Service::ReadScalingDID => 0x24,
            Service::SecurityAccess => 0x27,
            Service::CommunicationCtrl => 0x28,
            Service::Authentication => 0x29,
            Service::ReadDataByPeriodId => 0x2A,
            Service::DynamicalDefineDID => 0x2C,
            Service::WriteDID => 0x2E,
            Service::IOCtrl => 0x2F,
            Service::RoutineCtrl => 0x31,
            Service::RequestDownload => 0x34,
            Service::RequestUpload => 0x35,
            Service::TransferData => 0x36,
            Service::RequestTransferExit => 0x37,
            Service::RequestFileTransfer => 0x38,
            Service::WriteMemByAddr => 0x3D,
            Service::TesterPresent => 0x3E,
            Service::SecuredDataTrans => 0x84,
            Service::CtrlDTCSetting => 0x85,
            Service::ResponseOnEvent => 0x86,
            Service::LinkCtrl => 0x87,
            Service::NRC => 0x7F,
        }
    }

    /// The service a byte names, if it names one.
    pub open spec fn of_byte(b: u8) -> Option<Service> {
        if b == 0x10 {
            Some(Service::SessionCtrl)
        } else if b == 0x11 {
            Some(Service::ECUReset)
        } else if b == 0x14 {
            Some(Service::ClearDiagnosticInfo)
        } else if b == 0x19 {
            Some(Service::ReadDTCInfo)
        } else if b == 0x22 {
            Some(Service::ReadDID)
        } else if b == 0x23 {
            Some(Service::ReadMemByAddr)
        } else if b == 0x24 {
            Some(Service::ReadScalingDID)
        } else if b == 0x27 {
            Some(Service::SecurityAccess)
        } else if b == 0x28 {
            Some(Service::CommunicationCtrl)
        } else if b == 0x29 {
            Some(Service::Authentication)
        } else if b == 0x2A {
            Some(Service::ReadDataByPeriodId)
        } else if b == 0x2C {
            Some(Service::DynamicalDefineDID)
        } else if b == 0x2E {
            Some(Service::WriteDID)
        } else if b == 0x2F {
            Some(Service::IOCtrl)
        } else if b == 0x31 {
            Some(Service::RoutineCtrl)
        } else if b == 0x34 {
            Some(Service::RequestDownload)
        } else if b == 0x35 {
            Some(Service::RequestUpload)
        } else if b == 0x36 {
            Some(Service::TransferData)
        } else if b == 0x37 {
            Some(Service::RequestTransferExit)
        } else if b == 0x38 {
            Some(Service::RequestFileTransfer)
        } else if b == 0x3D {
            Some(Service::WriteMemByAddr)
        } else if b == 0x3E {
            Some(Service::TesterPresent)
        } else if b == 0x84 {
            Some(Service::SecuredDataTrans)
        } else if b == 0x85 {
            Some(Service::CtrlDTCSetting)
        } else if b == 0x86 {
            Some(Service::ResponseOnEvent)
        } else if b == 0x87 {
            Some(Service::LinkCtrl)
        } else if b == 0x7F {
            Some(Service::NRC)
        } else {
            None
        }
    }

    /// Whether requests and positive responses of this service carry a
    /// sub-function byte right after the service byte.
    pub open spec fn spec_has_sub_function(self) -> bool {
        match self {
            Service::SessionCtrl
            | Service::ECUReset
            | Service::SecurityAccess
            | Service::CommunicationCtrl
            | Service::ReadDTCInfo
            | Service::RoutineCtrl
            | Service::CtrlDTCSetting
            | Service::TesterPresent
            | Service::LinkCtrl
            | Service::DynamicalDefineDID
            | Service::Authentication
            | Service::RequestFileTransfer => true,
            _ => false,
        }
    }

    #[verifier::when_used_as_spec(byte)]
    pub fn to_byte(self) -> (b: u8)
        ensures
            b == self.byte(),
    {
        match self {
            Service::SessionCtrl => 0x10,
            Service::ECUReset => 0x11,
            Service::ClearDiagnosticInfo => 0x14,
            Service::ReadDTCInfo => 0x19,
            Service::ReadDID => 0x22,
            Service::ReadMemByAddr => 0x23,
            Service::ReadScalingDID => 0x24,
            Service::SecurityAccess => 0x27,
            Service::CommunicationCtrl => 0x28,
            Service::Authentication => 0x29,
            Service::ReadDataByPeriodId => 0x2A,
            Service::DynamicalDefineDID => 0x2C,
            Service::WriteDID => 0x2E,
            Service::IOCtrl => 0x2F,
            Service::RoutineCtrl => 0x31,
            Service::RequestDownload => 0x34,
            Service::RequestUpload => 0x35,
            Service::TransferData => 0x36,
            Service::RequestTransferExit => 0x37,
            Service::RequestFileTransfer => 0x38,
            Service::WriteMemByAddr => 0x3D,
            Service::TesterPresent => 0x3E,
            Service::SecuredDataTrans => 0x84,
            Service::CtrlDTCSetting => 0x85,
            Service::ResponseOnEvent => 0x86,
            Service::LinkCtrl => 0x87,
            Service::NRC => 0x7F,
        }
    }

    #[verifier::when_used_as_spec(of_byte)]
    pub fn from_byte(b: u8) -> (s: Option<Service>)
        ensures
            s == Service::of_byte(b),
            s matches Some(v) ==> v.byte() == b,
    {
        match b {
            0x10 => Some(Service::SessionCtrl),
            0x11 => Some(Service::ECUReset),
            0x14 => Some(Service::ClearDiagnosticInfo),
            0x19 => Some(Service::ReadDTCInfo),
            0x22 => Some(Service::ReadDID),
            0x23 => Some(Service::ReadMemByAddr),
            0x24 => Some(Service::ReadScalingDID),
            0x27 => Some(Service::SecurityAccess),
            0x28 => Some(Service::CommunicationCtrl),
            0x29 => Some(Service::Authentication),
            0x2A => Some(Service::ReadDataByPeriodId),
            0x2C => Some(Service::DynamicalDefineDID),
            0x2E => Some(Service::WriteDID),
            0x2F => Some(Service::IOCtrl),
            0x31 => Some(Service::RoutineCtrl),
            0x34 => Some(Service::RequestDownload),
            0x35 => Some(Service::RequestUpload),
            0x36 => Some(Service::TransferData),
            0x37 => Some(Service::RequestTransferExit),
            0x38 => Some(Service::RequestFileTransfer),
            0x3D => Some(Service::WriteMemByAddr),
            0x3E => Some(Service::TesterPresent),
            0x84 => Some(Service::SecuredDataTrans),
            0x85 => Some(Service::CtrlDTCSetting),
            0x86 => Some(Service::ResponseOnEvent),
            0x87 => Some(Service::LinkCtrl),
            0x7F => Some(Service::NRC),
            _ => None,
        }
    }

    #[verifier::when_used_as_spec(spec_has_sub_function)]
    pub fn has_sub_function(self) -> (b: bool)
        ensures
            b == self.spec_has_sub_function(),
    {
        match self {
            Service::SessionCtrl
            | Service::ECUReset
            | Service::SecurityAccess
            | Service::CommunicationCtrl
            | Service::ReadDTCInfo
            | Service::RoutineCtrl
            | Service::CtrlDTCSetting
            | Service::TesterPresent
            | Service::LinkCtrl
            | Service::DynamicalDefineDID
            | Service::Authentication
            | Service::RequestFileTransfer => true,
            _ => false,
        }
    }
}

/// Every service is found again from its byte.
pub proof fn lemma_service_byte_round_trip(s: Service)
    ensures
        Service::of_byte(s.byte()) == Some(s),
{
}

/// The sub-function of a request: the byte as it travels, and whether the
/// client asked the server to stay silent on success.
#[derive(Clone, Copy, Debug, PartialEq, Eq, Structural)]
pub struct SubFunction {
    pub origin: u8,
    pub suppress_positive: bool,
}

impl SubFunction {
    /// The function code: the travelling byte without the suppress bit, where
    /// that bit was read as a request for silence.
    pub open spec fn spec_function(self) -> u8 {
        if self.suppress_positive {
            self.origin & 0x7F
        } else {
            self.origin
        }
    }

    #[verifier::when_used_as_spec(spec_function)]
    pub fn function(self) -> (f: u8)
        ensures
            f == self.spec_function(),
    {
        if self.suppress_positive {
            self.origin & 0x7F
        } else {
            self.origin
        }
    }

    pub fn is_suppress_positive(self) -> (b: bool)
        ensures
            b == self.suppress_positive,
    {
        self.suppress_positive
    }
}

/// The sub-function byte a client sends: the function code, with the suppress
/// bit set when silence on success is asked for.
pub open spec fn spec_sub_function_byte(function: u8, suppress_positive: bool) -> u8 {
    if suppress_positive {
        function | SUPPRESS_POSITIVE
    } else {
        function
    }
}

#[verifier::when_used_as_spec(spec_sub_function_byte)]
pub fn sub_function_byte(function: u8, suppress_positive: bool) -> (b: u8)
    ensures
        b == spec_sub_function_byte(function, suppress_positive),
{
    if suppress_positive {
        function | SUPPRESS_POSITIVE
    } else {
        function
    }
}

/// What a request says, with its payload as a sequence.
#[verifier::ext_equal]
pub struct RequestView {
    pub service: Service,
    pub sub_function: Option<SubFunction>,
    pub data: Seq<u8>,
}

/// A request: service, optional sub-function, payload.
#[derive(Clone, Debug, PartialEq, Eq)]
pub struct Request {
    pub service: Service,
    pub sub_function: Option<SubFunction>,
    pub data: Vec<u8>,
}

impl View for Request {
    type V = RequestView;

    open spec fn view(&self) -> RequestView {
        RequestView { service: self.service, sub_function: self.sub_function, data: self.data@ }
    }
}

/// The bytes of a request: service byte, sub-function byte if any, payload.
pub open spec fn request_bytes(r: RequestView) -> Seq<u8> {
    match r.sub_function {
        Some(sf) => seq![r.service.byte(), sf.origin] + r.data,
        None => seq![r.service.byte()] + r.data,
    }
}

impl Request {
    pub fn service(&self) -> (s: Service)
        ensures
            s == self.service,
    {
        self.service
    }

    pub fn sub_function(&self) -> (s: Option<SubFunction>)
        ensures
            s == self.sub_function,
    {
        self.sub_function
    }

    pub fn raw_data(&self) -> (d: &[u8])
        ensures
            d@ == self.data@,
    {
        self.data.as_slice()
    }

    /// The request as it travels.
    pub fn to_bytes(&self) -> (out: Vec<u8>)
        ensures
            out@ == request_bytes(self@),
    {
        let mut out: Vec<u8> = Vec::new();
        out.push(self.service.to_byte());
        if let Some(sf) = self.sub_function {
            out.push(sf.origin);
        }
        let ghost head = out@;
        let mut i: usize = 0;
        while i < self.data.len()
            invariant
                i <= self.data.len(),
                out@ == head + self.data@.subrange(0, i as int),
            decreases self.data.len() - i,
        {
            out.push(self.data[i]);
            i += 1;
        }
        assert(self.data@.subrange(0, self.data.len() as int) == self.data@);
        out
    }
}

/// What a response says, with its payload as a sequence. In a negative
/// response the payload is the one byte of the response code.
#[verifier::ext_equal]
pub struct ResponseView {
    pub service: Service,
    pub negative: bool,
    pub sub_function: Option<u8>,
    pub data: Seq<u8>,
}

/// A response is well formed when, if negative, it carries no sub-function
/// and exactly one payload byte: the response code.
pub open spec fn response_wf(r: ResponseView) -> bool {
    r.negative ==> (r.sub_function is None && r.data.len() == 1)
}

/// The positive response to a service.
pub open spec fn positive_response(
    service: Service,
    sub_function: Option<u8>,
    data: Seq<u8>,
) -> ResponseView {
    ResponseView { service, negative: false, sub_function, data }
}

/// The negative response to a service. The code `0x00` means success, so with
/// it the response is an empty positive one.
pub open spec fn negative_response(service: Service, code: u8) -> ResponseView {
    if code == nrc::POSITIVE {
        ResponseView { service, negative: false, sub_function: None, data: Seq::empty() }
    } else {
        ResponseView { service, negative: true, sub_function: None, data: seq![code] }
    }
}

/// The bytes of a response. Negative: the marker `0x7F`, the service, the
/// code. Positive: the service byte with bit 6 set, the sub-function if any,
/// the payload.
pub open spec fn response_bytes(r: ResponseView) -> Seq<u8> {
    if r.negative {
        seq![0x7Fu8, r.service.byte()] + r.data
    } else {
        match r.sub_function {
            Some(sf) => seq![r.service.byte() | POSITIVE_OFFSET, sf] + r.data,
            None => seq![r.service.byte() | POSITIVE_OFFSET] + r.data,
        }
    }
}

/// A copy of a byte slice.
pub fn copy_bytes(src: &[u8]) -> (out: Vec<u8>)
    ensures
        out@ == src@,
{
    let mut out: Vec<u8> = Vec::new();
    let mut i: usize = 0;
    while i < src.len()
        invariant
            i <= src.len(),
            out@ == src@.subrange(0, i as int),
        decreases src.len() - i,
    {
        out.push(src[i]);
        i += 1;
    }
    assert(src@.subrange(0, src.len() as int) == src@);
    out
}

/// Appends a byte slice to a vector.
pub fn append_bytes(dst: &mut Vec<u8>, src: &[u8])
    ensures
        final(dst)@ == old(dst)@ + src@,
{
    let ghost head = dst@;
    let mut i: usize = 0;
    while i < src.len()
        invariant
            i <= src.len(),
            dst@ == head + src@.subrange(0, i as int),
        decreases src.len() - i,
    {
        dst.push(src[i]);
        i += 1;
    }
    assert(src@.subrange(0, src.len() as int) == src@);
}

/// A response, always well formed.
#[derive(Debug, PartialEq, Eq)]
pub struct Response {
    service: Service,
    negative: bool,
    sub_function: Option<u8>,
    data: Vec<u8>,
}

impl View for Response {
    type V = ResponseView;

    closed spec fn view(&self) -> ResponseView {
        ResponseView {
            service: self.service,
            negative: self.negative,
            sub_function: self.sub_function,
            data: self.data@,
        }
    }
}

impl Clone for Response {
    fn clone(&self) -> (r: Response)
        ensures
            r@ == self@,
    {
        proof {
            use_type_invariant(self);
        }
        Response {
            service: self.service,
            negative: self.negative,
            sub_function: self.sub_function,
            data: copy_bytes(self.data.as_slice()),
        }
    }
}

impl Response {
    #[verifier::type_invariant]
    spec fn well_formed(self) -> bool {
        self.negative ==> (self.sub_function is None && self.data@.len() == 1)
    }

    /// The positive response with the given parts.
    pub fn positive(service: Service, sub_function: Option<u8>, data: Vec<u8>) -> (r: Response)
        ensures
            r@ == positive_response(service, sub_function, data@),
            response_wf(r@),
    {
        Response { service, negative: false, sub_function, data }
    }

    /// The response with the given parts.
    pub(crate) fn from_parts(
        service: Service,
        negative: bool,
        sub_function: Option<u8>,
        data: Vec<u8>,
    ) -> (r: Response)
        requires
            negative ==> sub_function is None && data@.len() == 1,
        ensures
            r@ == (ResponseView { service, negative, sub_function, data: data@ }),
    {
        Response { service, negative, sub_function, data }
    }

    /// The negative response with the given code.
    pub fn new_negative(service: Service, code: u8) -> (r: Response)
        ensures
            r@ == negative_response(service, code),
            response_wf(r@),
    {
        if code == nrc::POSITIVE {
            Response { service, negative: false, sub_function: None, data: Vec::new() }
        } else {
            let mut data: Vec<u8> = Vec::new();
            data.push(code);
            assert(data@ == seq![code]);
            Response { service, negative: true, sub_function: None, data }
        }
    }

    pub fn service(&self) -> (s: Service)
        ensures
            s == self@.service,
    {
        self.service
    }

    pub fn is_negative(&self) -> (b: bool)
        ensures
            b == self@.negative,
            response_wf(self@),
    {
        proof {
            use_type_invariant(self);
        }
        self.negative
    }

    /// The sub-function byte the server echoed, if any.
    pub fn sub_function(&self) -> (s: Option<u8>)
        ensures
            s == self@.sub_function,
    {
        self.sub_function
    }

    pub fn raw_data(&self) -> (d: &[u8])
        ensures
            d@ == self@.data,
    {
        self.data.as_slice()
    }

    /// The response code of a negative response; `None` for a positive one.
    pub fn nrc_code(&self) -> (c: Option<u8>)
        ensures
            c == (if self@.negative {
                Some(self@.data[0])
            } else {
                None
            }),
            response_wf(self@),
    {
        proof {
            use_type_invariant(self);
        }
        if self.negative {
            Some(self.data[0])
        } else {
            None
        }
    }

    /// The response as it travels.
    pub fn to_bytes(&self) -> (out: Vec<u8>)
        ensures
            out@ == response_bytes(self@),
    {
        let mut out: Vec<u8> = Vec::new();
        if self.negative {
            out.push(0x7F);
            out.push(self.service.to_byte());
        } else {
            out.push(self.service.to_byte() | POSITIVE_OFFSET);
            if let Some(sf) = self.sub_function {
                out.push(sf);
            }
        }
        let ghost head = out@;
        let mut i: usize = 0;
        while i < self.data.len()
            invariant
                i <= self.data.len(),
                out@ == head + self.data@.subrange(0, i as int),
            decreases self.data.len() - i,
        {
            out.push(self.data[i]);
            i += 1;
        }
        assert(self.data@.subrange(0, self.data.len() as int) == self.data@);
        out
    }
}

} // verus!
