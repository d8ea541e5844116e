//! The message codec. Building and reading UDS messages is the work of the
//! `iso14229_1` crate; the functions here hand it plain values and take plain
//! values back. What each of them claims of the codec is believed, not proved.

use crate::error::DoCanError;
use crate::message::{Request, RequestView, Response, ResponseView, Service, SubFunction};
use crate::timing::spec_be16;
use iso14229_1::request as codec_request;
use iso14229_1::request::Request as CodecRequest;
use iso14229_1::response as codec_response;
use iso14229_1::response::Response as CodecResponse;
use iso14229_1::Service as CodecService;
use iso14229_1::{Configuration, DataIdentifier, Iso14229Error};
use std::collections::HashMap;
use vstd::prelude::*;

verus! {

broadcast use vstd::std_specs::hash::group_hash_axioms;

/// The longest value a data identifier may be configured with, in bytes.
pub const MAX_DID_LENGTH: usize = 0x7FFF_FFFF;

/// The payload length of each known data identifier. No length exceeds
/// `MAX_DID_LENGTH`, so that the codec's offsets into a message never
/// leave the range of `usize`.
#[derive(Debug)]
pub struct DidConfig {
    pub(crate) map: HashMap<u16, usize>,
}

impl View for DidConfig {
    type V = Map<u16, usize>;

    closed spec fn view(&self) -> Map<u16, usize> {
        self.map@
    }
}

impl Clone for DidConfig {
    fn clone(&self) -> (c: DidConfig)
        ensures
            c@ == self@,
    {
        proof {
            use_type_invariant(self);
        }
        DidConfig { map: self.map.clone() }
    }
}

impl Default for DidConfig {
    fn default() -> (c: DidConfig)
        ensures
            c@ == Map::<u16, usize>::empty(),
    {
        DidConfig::new()
    }
}

impl DidConfig {
    #[verifier::type_invariant]
    spec fn lengths_fit(self) -> bool {
        forall|did: u16| #[trigger] self.map@.contains_key(did) ==> self.map@[did] <= MAX_DID_LENGTH
    }

    /// A configuration that knows no data identifier.
    pub fn new() -> (c: DidConfig)
        ensures
            c@ == Map::<u16, usize>::empty(),
    {
        DidConfig { map: HashMap::new() }
    }

    /// Makes a data identifier known, with the length of its value, in place
    /// of any earlier length. A length beyond `MAX_DID_LENGTH` is not taken.
    /// Returns whether the length was taken.
    pub fn insert(&mut self, did: u16, length: usize) -> (taken: bool)
        ensures
            taken == (length <= MAX_DID_LENGTH),
            taken ==> final(self)@ == old(self)@.insert(did, length),
            !taken ==> final(self)@ == old(self)@,
    {
        proof {
            use_type_invariant(&*self);
        }
        if length > MAX_DID_LENGTH {
            false
        } else {
            let mut map = self.map.clone();
            map.insert(did, length);
            self.map = map;
            true
        }
    }

    /// Forgets a data identifier.
    pub fn remove(&mut self, did: u16)
        ensures
            final(self)@ == old(self)@.remove(did),
    {
        proof {
            use_type_invariant(&*self);
        }
        let mut map = self.map.clone();
        map.remove(&did);
        self.map = map;
    }

    /// The configured length of the value of a data identifier.
    pub fn get(&self, did: u16) -> (length: Option<usize>)
        ensures
            length == (if self@.contains_key(did) {
                Some(self@[did])
            } else {
                None
            }),
            length matches Some(l) ==> l <= MAX_DID_LENGTH,
    {
        proof {
            use_type_invariant(self);
        }
        match self.map.get(&did) {
            Some(length) => Some(*length),
            None => None,
        }
    }

    /// The known data identifiers with their lengths, in ascending order of
    /// the identifier.
    pub fn entries(&self) -> (out: Vec<(u16, usize)>)
        ensures
            forall|i: int|
                0 <= i < out@.len() ==> self@.contains_key(#[trigger] out@[i].0)
                    && self@[out@[i].0] == out@[i].1,
            forall|did: u16|
                self@.contains_key(did) ==> exists|i: int|
                    0 <= i < out@.len() && #[trigger] out@[i].0 == did,
            forall|i: int, j: int| 0 <= i < j < out@.len() ==> out@[i].0 < out@[j].0,
    {
        let mut out: Vec<(u16, usize)> = Vec::new();
        let mut did: u16 = 0;
        loop
            invariant_except_break
                forall|i: int|
                    0 <= i < out@.len() ==> self@.contains_key(#[trigger] out@[i].0)
                        && self@[out@[i].0] == out@[i].1 && out@[i].0 < did,
                forall|d: u16|
                    d < did && self@.contains_key(d) ==> exists|i: int|
                        0 <= i < out@.len() && #[trigger] out@[i].0 == d,
                forall|i: int, j: int| 0 <= i < j < out@.len() ==> out@[i].0 < out@[j].0,
            ensures
                forall|i: int|
                    0 <= i < out@.len() ==> self@.contains_key(#[trigger] out@[i].0)
                        && self@[out@[i].0] == out@[i].1,
                forall|d: u16|
                    self@.contains_key(d) ==> exists|i: int|
                        0 <= i < out@.len() && #[trigger] out@[i].0 == d,
                forall|i: int, j: int| 0 <= i < j < out@.len() ==> out@[i].0 < out@[j].0,
            decreases 0xFFFF - did,
        {
            let ghost before = out@;
            match self.get(did) {
                Some(length) => {
                    out.push((did, length));
                    proof {
                        assert(out@[before.len() as int].0 == did);
                        assert forall|d: u16| d <= did && self@.contains_key(d) implies exists|
                            i: int,
                        |
                            0 <= i < out@.len() && #[trigger] out@[i].0 == d by {
                            if d < did {
                                let i = choose|i: int|
                                    0 <= i < before.len() && #[trigger] before[i].0 == d;
                                assert(out@[i].0 == d);
                            } else {
                                assert(out@[before.len() as int].0 == d);
                            }
                        }
                    }
                },
                None => {},
            }
            if did == 0xFFFF {
                break ;
            }
            did += 1;
        }
        out
    }

    /// The number of known data identifiers.
    pub fn len(&self) -> (n: usize)
        ensures
            n == self@.len(),
    {
        self.map.len()
    }

    pub fn is_empty(&self) -> (b: bool)
        ensures
            b == (self@.len() == 0),
    {
        self.map.len() == 0
    }
}

/// The variant of a codec error.
#[derive(Clone, Copy, Debug, PartialEq, Eq, Structural)]
pub enum CodecErrorKind {
    InvalidParam,
    InvalidData,
    InvalidDataLength,
    DidNotSupported,
    InvalidDynamicallyDefinedDID,
    InvalidSessionData,
    ReservedError,
    SubFunctionError,
    ServiceError,
    OtherError,
    NotImplement,
}

/// The variant of a codec error value.
pub uninterp spec fn codec_error_kind_of(e: Iso14229Error) -> CodecErrorKind;

/// Tells the variants of `iso14229_1::Iso14229Error` apart. The contract
/// claims no more than that the same error always has the same variant.
#[verifier::external_body]
pub(crate) fn codec_error_kind(e: &Iso14229Error) -> (k: CodecErrorKind)
    ensures
        k == codec_error_kind_of(*e),
{
    match e {
        Iso14229Error::InvalidParam(_) => CodecErrorKind::InvalidParam,
        Iso14229Error::InvalidData(_) => CodecErrorKind::InvalidData,
        Iso14229Error::InvalidDataLength { .. } => CodecErrorKind::InvalidDataLength,
        Iso14229Error::DidNotSupported(_) => CodecErrorKind::DidNotSupported,
        Iso14229Error::InvalidDynamicallyDefinedDID(_) => CodecErrorKind::InvalidDynamicallyDefinedDID,
        Iso14229Error::InvalidSessionData(_) => CodecErrorKind::InvalidSessionData,
        Iso14229Error::ReservedError(_) => CodecErrorKind::ReservedError,
        Iso14229Error::SubFunctionError(_) => CodecErrorKind::SubFunctionError,
        Iso14229Error::ServiceError(_) => CodecErrorKind::ServiceError,
        Iso14229Error::OtherError(_) => CodecErrorKind::OtherError,
        Iso14229Error::NotImplement => CodecErrorKind::NotImplement,
    }
}

/// The refusal of the codec to build a request from these parts: the variant
/// of the error that `iso14229_1::request::Request::new` returns for the
/// service with this byte, this sub-function byte, this payload and these
/// identifier lengths; `None` where it returns `Ok`.
pub uninterp spec fn request_refused(
    service: u8,
    sub_function: Option<u8>,
    data: Seq<u8>,
    dids: Map<u16, usize>,
) -> Option<CodecErrorKind>;

/// Whether the codec builds a request from these parts.
pub open spec fn request_accepted(
    service: u8,
    sub_function: Option<u8>,
    data: Seq<u8>,
    dids: Map<u16, usize>,
) -> bool {
    request_refused(service, sub_function, data, dids) is None
}

/// The sub-function a built request holds. The codec reads bit 7 of the byte
/// as "suppress the positive response", except for SecurityAccess, where the
/// whole byte is the level.
pub open spec fn built_sub_function(service: u8, sub_function: Option<u8>) -> Option<SubFunction> {
    match sub_function {
        Some(b) => Some(
            SubFunction {
                origin: b,
                suppress_positive: service != 0x27 && b & 0x80 == 0x80,
            },
        ),
        None => None,
    }
}

/// Calls `iso14229_1::request::Request::new`, after
/// `iso14229_1::Service::try_from` on the service byte. Claims: success and
/// the variant of the error are `request_refused` of the arguments; the
/// request it builds has the payload it was given and the sub-function byte
/// it was given.
#[verifier::external_body]
pub(crate) fn codec_new_request(
    service: u8,
    sub_function: Option<u8>,
    data: &[u8],
    cfg: &DidConfig,
) -> (r: Result<(Option<SubFunction>, Vec<u8>), Iso14229Error>)
    ensures
        match r {
            Ok(_) => request_refused(service, sub_function, data@, cfg@) is None,
            Err(e) => request_refused(service, sub_function, data@, cfg@) == Some(
                codec_error_kind_of(e),
            ),
        },
        r matches Ok(parts) ==> parts.0 == built_sub_function(service, sub_function) && parts.1@
            == data@,
{
    let did = cfg.map.iter().map(|(k, v)| (DataIdentifier::from(*k), *v)).collect();
    let cfg = Configuration { did, dtc: Default::default() };
    let req = CodecRequest::new(CodecService::try_from(service)?, sub_function, data, &cfg)?;
    let sf = req.sub_function().map(
        |s| SubFunction { origin: s.into(), suppress_positive: s.is_suppress_positive() },
    );
    Ok((sf, req.raw_data().to_vec()))
}

/// Whether the bytes after the service byte of a received request are
/// accepted: the first of them is the sub-function where the service has one,
/// and the parts so found must be accepted as a request.
pub open spec fn request_parse_accepted(service: u8, data: Seq<u8>, dids: Map<u16, usize>) -> bool {
    match Service::of_byte(service) {
        Some(s) => if s.has_sub_function() {
            data.len() >= 1 && request_accepted(service, Some(data[0]), data.skip(1), dids)
        } else {
            request_accepted(service, None, data, dids)
        },
        None => false,
    }
}

/// The parts of a received request: sub-function and payload.
pub open spec fn parsed_request_parts(service: Service, data: Seq<u8>) -> (
    Option<SubFunction>,
    Seq<u8>,
) {
    if service.has_sub_function() {
        (built_sub_function(service.byte(), Some(data[0])), data.skip(1))
    } else {
        (None, data)
    }
}

/// The refusal of the codec to read the bytes after a service byte as a
/// request: the variant of the error, or `None` where it reads them.
pub uninterp spec fn request_parse_refused(
    service: u8,
    data: Seq<u8>,
    dids: Map<u16, usize>,
) -> Option<CodecErrorKind>;

/// Calls `TryFrom<(Service, T, &Configuration)>` of
/// `iso14229_1::request::Request`, after `iso14229_1::Service::try_from`.
/// Claims: success and the variant of the error are `request_parse_refused`
/// of the arguments; and what its source shows: for a service with a
/// sub-function it needs at least one byte, takes the first as the
/// sub-function and hands the rest to `Request::new`; for the others it hands
/// all bytes to `Request::new`.
#[verifier::external_body]
pub(crate) fn codec_parse_request(service: u8, data: &[u8], cfg: &DidConfig) -> (r: Result<
    (Option<SubFunction>, Vec<u8>),
    Iso14229Error,
>)
    ensures
        match r {
            Ok(_) => request_parse_refused(service, data@, cfg@) is None,
            Err(e) => request_parse_refused(service, data@, cfg@) == Some(codec_error_kind_of(e)),
        },
        r is Ok <==> request_parse_accepted(service, data@, cfg@),
        r matches Ok(parts) ==> Service::of_byte(service) matches Some(s) && (parts.0, parts.1@)
            == parsed_request_parts(s, data@),
{
    let did = cfg.map.iter().map(|(k, v)| (DataIdentifier::from(*k), *v)).collect();
    let cfg = Configuration { did, dtc: Default::default() };
    let req = CodecRequest::try_from((CodecService::try_from(service)?, data, &cfg))?;
    let sf = req.sub_function().map(
        |s| SubFunction { origin: s.into(), suppress_positive: s.is_suppress_positive() },
    );
    Ok((sf, req.raw_data().to_vec()))
}

/// The refusal of the codec to build a positive response from these parts:
/// the variant of the error that `iso14229_1::response::Response::new`
/// returns for them; `None` where it returns `Ok`.
pub uninterp spec fn response_refused(
    service: u8,
    sub_function: Option<u8>,
    data: Seq<u8>,
    dids: Map<u16, usize>,
) -> Option<CodecErrorKind>;

/// Calls `iso14229_1::response::Response::new`, after
/// `iso14229_1::Service::try_from` on the service byte. Claims: success and
/// the variant of the error are `response_refused` of the arguments; for a
/// service other than the negative-response marker, the response it builds
/// has the sub-function and the payload it was given.
#[verifier::external_body]
pub(crate) fn codec_new_response(
    service: u8,
    sub_function: Option<u8>,
    data: &[u8],
    cfg: &DidConfig,
) -> (r: Result<(Option<u8>, Vec<u8>), Iso14229Error>)
    ensures
        match r {
            Ok(_) => response_refused(service, sub_function, data@, cfg@) is None,
            Err(e) => response_refused(service, sub_function, data@, cfg@) == Some(
                codec_error_kind_of(e),
            ),
        },
        r matches Ok(parts) ==> service != 0x7F ==> parts.0 == sub_function && parts.1@ == data@,
{
    let did = cfg.map.iter().map(|(k, v)| (DataIdentifier::from(*k), *v)).collect();
    let cfg = Configuration { did, dtc: Default::default() };
    let resp = CodecResponse::new(CodecService::try_from(service)?, sub_function, data, &cfg)?;
    Ok((resp.sub_function().map(|s| s.origin()), resp.raw_data().to_vec()))
}

/// What the codec reads from received bytes: service byte, negative flag,
/// sub-function byte, payload; or, where it refuses the bytes, the variant of
/// the error it refuses them with.
pub uninterp spec fn response_decoded(bytes: Seq<u8>, dids: Map<u16, usize>) -> Result<
    (u8, bool, Option<u8>, Seq<u8>),
    CodecErrorKind,
>;

/// How the parts of a response that was read lie in the bytes it was read
/// from. A negative response is the marker `0x7F`, the service and the code.
/// A positive response starts with the service byte, of which bit 6 is not
/// looked at; the next byte is the sub-function where the service has one;
/// the rest is the payload.
pub open spec fn read_from(bytes: Seq<u8>, parts: (u8, bool, Option<u8>, Seq<u8>)) -> bool {
    if parts.1 {
        &&& bytes.len() == 3
        &&& bytes[0] == 0x7F
        &&& parts.0 == bytes[1]
        &&& parts.2 is None
        &&& parts.3 == seq![bytes[2]]
    } else {
        &&& bytes.len() >= 1
        &&& bytes[0] != 0x7F
        &&& parts.0 == bytes[0] & 0xBF
        &&& match Service::of_byte(parts.0) {
            Some(s) => if s.has_sub_function() {
                bytes.len() >= 2 && parts.2 == Some(bytes[1]) && parts.3 == bytes.skip(2)
            } else {
                parts.2 is None && parts.3 == bytes.skip(1)
            },
            None => false,
        }
    }
}

/// Calls `TryFrom<(T, &Configuration)>` of `iso14229_1::response::Response`.
/// Claims: the result, and on refusal the variant of the error, is
/// `response_decoded` of the arguments; the service is one of the known
/// services; and what its source shows of where the parts come from: see
/// `read_from`.
#[verifier::external_body]
pub(crate) fn codec_decode_response(data: &[u8], cfg: &DidConfig) -> (r: Result<
    (u8, bool, Option<u8>, Vec<u8>),
    Iso14229Error,
>)
    ensures
        match r {
            Ok(p) => response_decoded(data@, cfg@) == Ok::<_, CodecErrorKind>(
                (p.0, p.1, p.2, p.3@),
            ),
            Err(e) => response_decoded(data@, cfg@) == Err::<
                (u8, bool, Option<u8>, Seq<u8>),
                _,
            >(codec_error_kind_of(e)),
        },
        r matches Ok(p) ==> Service::of_byte(p.0) is Some && read_from(
            data@,
            (p.0, p.1, p.2, p.3@),
        ),
{
    let did = cfg.map.iter().map(|(k, v)| (DataIdentifier::from(*k), *v)).collect();
    let cfg = Configuration { did, dtc: Default::default() };
    let resp = CodecResponse::try_from((data, &cfg))?;
    let sf = resp.sub_function().map(|s| s.origin());
    Ok((resp.service().into(), resp.is_negative(), sf, resp.raw_data().to_vec()))
}

/// Whether an error is the refusal of the codec, kept as the codec made it,
/// of the given variant.
pub open spec fn refused_with(e: DoCanError, refusal: Option<CodecErrorKind>) -> bool {
    e matches DoCanError::Iso14229Error(c) && refusal == Some(codec_error_kind_of(c))
}

/// The request the codec builds from the given parts.
pub open spec fn built_request(
    service: Service,
    sub_function: Option<u8>,
    data: Seq<u8>,
) -> RequestView {
    RequestView {
        service,
        sub_function: built_sub_function(service.byte(), sub_function),
        data,
    }
}

/// A received request that was read says, byte for byte, what was received:
/// its bytes are the service byte and the bytes that followed it.
pub proof fn lemma_parsed_request_bytes(service: Service, data: Seq<u8>)
    requires
        service.has_sub_function() ==> data.len() >= 1,
    ensures
        ({
            let parts = parsed_request_parts(service, data);
            crate::message::request_bytes(
                RequestView { service, sub_function: parts.0, data: parts.1 },
            ) == seq![service.byte()] + data
        }),
{
    let parts = parsed_request_parts(service, data);
    let req = RequestView { service, sub_function: parts.0, data: parts.1 };
    assert(crate::message::request_bytes(req) =~= seq![service.byte()] + data);
}

/// A request that was built is read back as it was built: the bytes it
/// travels as, without the service byte, give its sub-function and payload
/// again.
pub proof fn lemma_built_request_is_read_back(
    service: Service,
    sub_function: Option<u8>,
    data: Seq<u8>,
)
    requires
        sub_function is Some <==> service.has_sub_function(),
    ensures
        ({
            let req = built_request(service, sub_function, data);
            parsed_request_parts(service, crate::message::request_bytes(req).skip(1)) == (
                req.sub_function,
                req.data,
            )
        }),
{
    let req = built_request(service, sub_function, data);
    let tail = crate::message::request_bytes(req).skip(1);
    match sub_function {
        Some(b) => {
            assert(tail =~= seq![b] + data);
            assert(tail[0] == b);
            assert(tail.skip(1) =~= data);
        },
        None => {
            assert(tail =~= data);
        },
    }
}

/// Builds a request, or says why the codec refuses it.
pub fn new_request(service: Service, sub_function: Option<u8>, data: &[u8], cfg: &DidConfig) -> (r:
    Result<Request, DoCanError>)
    ensures
        r is Ok <==> request_accepted(service.byte(), sub_function, data@, cfg@),
        r matches Ok(req) ==> req@ == built_request(service, sub_function, data@),
        r matches Err(e) ==> refused_with(
            e,
            request_refused(service.byte(), sub_function, data@, cfg@),
        ),
{
    match codec_new_request(service.to_byte(), sub_function, data, cfg) {
        Ok((sf, payload)) => Ok(Request { service, sub_function: sf, data: payload }),
        Err(e) => Err(DoCanError::Iso14229Error(e)),
    }
}

/// The response the codec reads from received bytes, where it reads one.
pub open spec fn decoded_response(bytes: Seq<u8>, dids: Map<u16, usize>) -> Option<
    ResponseView,
> {
    match response_decoded(bytes, dids) {
        Ok(p) => match Service::of_byte(p.0) {
            Some(service) => Some(
                ResponseView { service, negative: p.1, sub_function: p.2, data: p.3 },
            ),
            None => None,
        },
        Err(_) => None,
    }
}

/// The variant of the error with which the codec refuses received bytes;
/// `None` where it reads a response from them.
pub open spec fn decode_refusal(bytes: Seq<u8>, dids: Map<u16, usize>) -> Option<CodecErrorKind> {
    match response_decoded(bytes, dids) {
        Ok(_) => None,
        Err(kind) => Some(kind),
    }
}

/// Where the parts of a response lie in the bytes it was read from.
pub open spec fn response_read_from(bytes: Seq<u8>, resp: ResponseView) -> bool {
    read_from(bytes, (resp.service.byte(), resp.negative, resp.sub_function, resp.data))
}

/// Reads a response from received bytes, or says why the codec refuses them.
///
/// A response that was read travels as the bytes it was read from, with bit
/// 6 of the first byte set: as the same bytes where that bit was set, as it
/// is in the first byte of every response.
pub fn decode_response(data: &[u8], cfg: &DidConfig) -> (r: Result<Response, DoCanError>)
    ensures
        match r {
            Ok(resp) => decoded_response(data@, cfg@) == Some(resp@) && decode_refusal(
                data@,
                cfg@,
            ) is None,
            Err(e) => decoded_response(data@, cfg@) is None && refused_with(
                e,
                decode_refusal(data@, cfg@),
            ),
        },
        r matches Ok(resp) ==> response_read_from(data@, resp@),
        r matches Ok(resp) ==> data@.len() >= 1 && (data@[0] & 0x40 == 0x40
            ==> crate::message::response_bytes(resp@) == data@),
        r matches Ok(resp) ==> crate::message::response_bytes(resp@) == data@.update(
            0,
            data@[0] | 0x40,
        ),
{
    match codec_decode_response(data, cfg) {
        Ok((service, negative, sub_function, payload)) => {
            let known = Service::from_byte(service).unwrap();
            proof {
                let first = data@[0];
                if !negative && first & 0x40 == 0x40 {
                    assert(((first & 0xBF) | 0x40) == first) by (bit_vector)
                        requires
                            first & 0x40 == 0x40,
                    ;
                }
                if negative {
                    assert(0x7Fu8 & 0x40 == 0x40) by (bit_vector);
                }
                assert(((first & 0xBF) | 0x40) == first | 0x40) by (bit_vector);
                assert(0x7Fu8 | 0x40 == 0x7F) by (bit_vector);
            }
            let resp = Response::from_parts(known, negative, sub_function, payload);
            assert(data@[0] & 0x40 == 0x40 ==> crate::message::response_bytes(resp@) =~= data@);
            assert(crate::message::response_bytes(resp@) =~= data@.update(0, data@[0] | 0x40));
            Ok(resp)
        },
        Err(e) => Err(DoCanError::Iso14229Error(e)),
    }
}

/// Whether the payload of a request reads as the typed request of its
/// service: whether `iso14229_1::request::Request::data` returns `Ok` for the
/// request that `Request::new` builds from these parts. Spoken of for
/// CommunicationControl (`0x28`), ControlDTCSetting (`0x85`), LinkControl
/// (`0x87`), ClearDiagnosticInformation (`0x14`) and
/// ReadDataByPeriodicIdentifier (`0x2A`).
pub uninterp spec fn request_data_accepted(
    service: u8,
    sub_function: Option<u8>,
    data: Seq<u8>,
    dids: Map<u16, usize>,
) -> bool;

/// Calls `Request::new` for CommunicationControl and `Request::data` at
/// `request::CommunicationCtrl`. Claims that success is `request_data_accepted` of the
/// arguments.
#[verifier::external_body]
pub(crate) fn codec_check_communication_ctrl(
    sub_function: Option<u8>,
    data: &[u8],
    cfg: &DidConfig,
) -> (r: Result<(), Iso14229Error>)
    ensures
        r is Ok <==> request_data_accepted(0x28, sub_function, data@, cfg@),
{
    let did = cfg.map.iter().map(|(k, v)| (DataIdentifier::from(*k), *v)).collect();
    let cfg = Configuration { did, dtc: Default::default() };
    let req = CodecRequest::new(CodecService::CommunicationCtrl, sub_function, data, &cfg)?;
    req.data::<codec_request::CommunicationCtrl>(&cfg).map(|_| ())
}

/// Calls `Request::new` for ControlDTCSetting and `Request::data` at
/// `request::CtrlDTCSetting`. Claims that success is `request_data_accepted` of the
/// arguments.
#[verifier::external_body]
pub(crate) fn codec_check_ctrl_dtc_setting(
    sub_function: Option<u8>,
    data: &[u8],
    cfg: &DidConfig,
) -> (r: Result<(), Iso14229Error>)
    ensures
        r is Ok <==> request_data_accepted(0x85, sub_function, data@, cfg@),
{
    let did = cfg.map.iter().map(|(k, v)| (DataIdentifier::from(*k), *v)).collect();
    let cfg = Configuration { did, dtc: Default::default() };
    let req = CodecRequest::new(CodecService::CtrlDTCSetting, sub_function, data, &cfg)?;
    req.data::<codec_request::CtrlDTCSetting>(&cfg).map(|_| ())
}

/// Calls `Request::new` for LinkControl and `Request::data` at
/// `request::LinkCtrl`. Claims that success is `request_data_accepted` of the
/// arguments.
#[verifier::external_body]
pub(crate) fn codec_check_link_ctrl(
    sub_function: Option<u8>,
    data: &[u8],
    cfg: &DidConfig,
) -> (r: Result<(), Iso14229Error>)
    ensures
        r is Ok <==> request_data_accepted(0x87, sub_function, data@, cfg@),
{
    let did = cfg.map.iter().map(|(k, v)| (DataIdentifier::from(*k), *v)).collect();
    let cfg = Configuration { did, dtc: Default::default() };
    let req = CodecRequest::new(CodecService::LinkCtrl, sub_function, data, &cfg)?;
    req.data::<codec_request::LinkCtrl>(&cfg).map(|_| ())
}

/// Calls `Request::new` for ClearDiagnosticInformation and `Request::data` at
/// `request::ClearDiagnosticInfo`. Claims that success is `request_data_accepted` of the
/// arguments.
#[verifier::external_body]
pub(crate) fn codec_check_clear_diagnostic_info(
    sub_function: Option<u8>,
    data: &[u8],
    cfg: &DidConfig,
) -> (r: Result<(), Iso14229Error>)
    ensures
        r is Ok <==> request_data_accepted(0x14, sub_function, data@, cfg@),
{
    let did = cfg.map.iter().map(|(k, v)| (DataIdentifier::from(*k), *v)).collect();
    let cfg = Configuration { did, dtc: Default::default() };
    let req = CodecRequest::new(CodecService::ClearDiagnosticInfo, sub_function, data, &cfg)?;
    req.data::<codec_request::ClearDiagnosticInfo>(&cfg).map(|_| ())
}

/// Calls `Request::new` for ReadDataByPeriodicIdentifier and `Request::data` at
/// `request::ReadDataByPeriodId`. Claims that success is `request_data_accepted` of the
/// arguments.
#[verifier::external_body]
pub(crate) fn codec_check_read_data_by_pid(
    sub_function: Option<u8>,
    data: &[u8],
    cfg: &DidConfig,
) -> (r: Result<(), Iso14229Error>)
    ensures
        r is Ok <==> request_data_accepted(0x2A, sub_function, data@, cfg@),
{
    let did = cfg.map.iter().map(|(k, v)| (DataIdentifier::from(*k), *v)).collect();
    let cfg = Configuration { did, dtc: Default::default() };
    let req = CodecRequest::new(CodecService::ReadDataByPeriodId, sub_function, data, &cfg)?;
    req.data::<codec_request::ReadDataByPeriodId>(&cfg).map(|_| ())
}

/// The routine identifier of a RoutineControl request: the first two payload
/// bytes, high byte first. There is one where the sub-function byte, without
/// its top bit, names one of the three routine controls and the payload has
/// two bytes or more.
pub open spec fn routine_id_parsed(sub_function: Option<u8>, data: Seq<u8>) -> Option<u16> {
    match sub_function {
        Some(b) => if 1 <= b & 0x7F <= 3 && data.len() >= 2 {
            Some(spec_be16(data[0], data[1]))
        } else {
            None
        },
        None => None,
    }
}

/// Calls `Request::new` for RoutineControl and `Request::data` at
/// `request::RoutineCtrl`. Claims that the codec reads a request exactly
/// where `routine_id_parsed` has an identifier, and reads that one.
#[verifier::external_body]
pub(crate) fn codec_routine_id(sub_function: Option<u8>, data: &[u8], cfg: &DidConfig) -> (r:
    Result<u16, Iso14229Error>)
    ensures
        match r {
            Ok(id) => routine_id_parsed(sub_function, data@) == Some(id),
            Err(_) => routine_id_parsed(sub_function, data@) is None,
        },
{
    let did = cfg.map.iter().map(|(k, v)| (DataIdentifier::from(*k), *v)).collect();
    let cfg = Configuration { did, dtc: Default::default() };
    let req = CodecRequest::new(CodecService::RoutineCtrl, sub_function, data, &cfg)?;
    Ok(req.data::<codec_request::RoutineCtrl>(&cfg)?.routine_id.into())
}

/// The identifier and value of a WriteDataByIdentifier request: the first
/// two payload bytes, high byte first, and the rest. There are such where the
/// identifier is configured and the value has the length configured for it,
/// which is one byte or more.
pub open spec fn write_did_parsed(data: Seq<u8>, dids: Map<u16, usize>) -> Option<
    (u16, Seq<u8>),
> {
    if data.len() >= 3 && dids.contains_key(spec_be16(data[0], data[1])) && data.len() == 2
        + dids[spec_be16(data[0], data[1])] {
        Some((spec_be16(data[0], data[1]), data.skip(2)))
    } else {
        None
    }
}

/// Calls `Request::new` for WriteDataByIdentifier and `Request::data` at
/// `request::WriteDID`. Claims that the codec reads a request exactly where
/// `write_did_parsed` has an identifier and a value, and reads those.
#[verifier::external_body]
pub(crate) fn codec_write_did(data: &[u8], cfg: &DidConfig) -> (r: Result<
    (u16, Vec<u8>),
    Iso14229Error,
>)
    ensures
        match r {
            Ok(p) => write_did_parsed(data@, cfg@) == Some((p.0, p.1@)),
            Err(_) => write_did_parsed(data@, cfg@) is None,
        },
{
    let did = cfg.map.iter().map(|(k, v)| (DataIdentifier::from(*k), *v)).collect();
    let cfg = Configuration { did, dtc: Default::default() };
    let req = CodecRequest::new(CodecService::WriteDID, None, data, &cfg)?;
    let ctx = req.data::<codec_request::WriteDID>(&cfg)?;
    Ok((ctx.0.did.into(), ctx.0.data))
}

/// The identifiers a payload lists: each pair of bytes is one, high byte
/// first.
pub open spec fn identifiers_listed(data: Seq<u8>) -> Seq<u16> {
    Seq::new((data.len() / 2) as nat, |i: int| spec_be16(data[2 * i], data[2 * i + 1]))
}

/// The identifiers of a ReadDataByIdentifier request, in the order of the
/// request. There are such where the payload is one pair of bytes or more,
/// and nothing else.
pub open spec fn read_did_parsed(data: Seq<u8>) -> Option<Seq<u16>> {
    if data.len() >= 2 && data.len() % 2 == 0 {
        Some(identifiers_listed(data))
    } else {
        None
    }
}

/// Calls `Request::new` for ReadDataByIdentifier, `Request::data` at
/// `request::ReadDID` and `ReadDID::collect`. Claims that the codec reads a
/// request exactly where `read_did_parsed` has a list, and reads that list.
#[verifier::external_body]
pub(crate) fn codec_read_did(data: &[u8], cfg: &DidConfig) -> (r: Result<Vec<u16>, Iso14229Error>)
    ensures
        match r {
            Ok(list) => read_did_parsed(data@) == Some(list@),
            Err(_) => read_did_parsed(data@) is None,
        },
{
    let did = cfg.map.iter().map(|(k, v)| (DataIdentifier::from(*k), *v)).collect();
    let cfg = Configuration { did, dtc: Default::default() };
    let req = CodecRequest::new(CodecService::ReadDID, None, data, &cfg)?;
    let list = req.data::<codec_request::ReadDID>(&cfg)?.collect();
    Ok(list.into_iter().map(|d| d.into()).collect())
}

/// The memory size the codec reads from a RequestDownload request; `None`
/// where it refuses the request.
pub uninterp spec fn download_size_parsed(data: Seq<u8>, dids: Map<u16, usize>) -> Option<u128>;

/// Calls `Request::new` for RequestDownload and `Request::data` at
/// `request::RequestDownload`, and picks the memory size of the location.
/// Claims: the result is `download_size_parsed`; a size that is read is not
/// zero.
#[verifier::external_body]
pub(crate) fn codec_download_size(data: &[u8], cfg: &DidConfig) -> (r: Result<
    u128,
    Iso14229Error,
>)
    ensures
        match r {
            Ok(size) => download_size_parsed(data@, cfg@) == Some(size),
            Err(_) => download_size_parsed(data@, cfg@) is None,
        },
        r matches Ok(size) ==> size != 0,
{
    let did = cfg.map.iter().map(|(k, v)| (DataIdentifier::from(*k), *v)).collect();
    let cfg = Configuration { did, dtc: Default::default() };
    let req = CodecRequest::new(CodecService::RequestDownload, None, data, &cfg)?;
    Ok(req.data::<codec_request::RequestDownload>(&cfg)?.mem_loc.memory_size())
}

/// The bytes of the codec's RequestDownload response for a largest block
/// length that is not zero: the length format, then the block length.
pub uninterp spec fn download_reply(size: u128) -> Seq<u8>;

/// Calls `response::RequestDownload::new` and turns the value into bytes.
/// Claims: the call succeeds exactly for a length that is not zero, and the
/// bytes are then `download_reply`.
#[verifier::external_body]
pub(crate) fn codec_download_reply(size: u128) -> (r: Result<Vec<u8>, Iso14229Error>)
    ensures
        r is Ok <==> size != 0,
        r matches Ok(v) ==> v@ == download_reply(size),
{
    Ok(codec_response::RequestDownload::new(size)?.into())
}

/// The memory size the codec reads from a RequestUpload request; `None` where
/// it refuses the request.
pub uninterp spec fn upload_size_parsed(data: Seq<u8>, dids: Map<u16, usize>) -> Option<u128>;

/// Calls `Request::new` for RequestUpload and `Request::data` at
/// `request::RequestUpload`, and picks the memory size of the location.
/// Claims: the result is `upload_size_parsed`; a size that is read is not
/// zero.
#[verifier::external_body]
pub(crate) fn codec_upload_size(data: &[u8], cfg: &DidConfig) -> (r: Result<u128, Iso14229Error>)
    ensures
        match r {
            Ok(size) => upload_size_parsed(data@, cfg@) == Some(size),
            Err(_) => upload_size_parsed(data@, cfg@) is None,
        },
        r matches Ok(size) ==> size != 0,
{
    let did = cfg.map.iter().map(|(k, v)| (DataIdentifier::from(*k), *v)).collect();
    let cfg = Configuration { did, dtc: Default::default() };
    let req = CodecRequest::new(CodecService::RequestUpload, None, data, &cfg)?;
    Ok(req.data::<codec_request::RequestUpload>(&cfg)?.mem_loc.memory_size())
}

/// The bytes of the codec's RequestUpload response for a largest block length
/// that is not zero: the length format, then the block length.
pub uninterp spec fn upload_reply(size: u128) -> Seq<u8>;

/// Calls `response::RequestUpload::new` and turns the value into bytes.
/// Claims: the call succeeds exactly for a length that is not zero, and the
/// bytes are then `upload_reply`.
#[verifier::external_body]
pub(crate) fn codec_upload_reply(size: u128) -> (r: Result<Vec<u8>, Iso14229Error>)
    ensures
        r is Ok <==> size != 0,
        r matches Ok(v) ==> v@ == upload_reply(size),
{
    Ok(codec_response::RequestUpload::new(size)?.into())
}

/// How many bytes the memory location at the head of a payload takes: the
/// format byte, the address and the size, whose lengths the two halves of the
/// format byte give.
pub open spec fn memory_location_length(format: u8) -> int {
    1 + (format & 0x0F) + (format >> 4)
}

/// Whether a WriteMemoryByAddress payload can be read: it has five bytes or
/// more, address and size each take at least one byte and lie within the
/// payload, and neither is zero.
pub open spec fn write_mem_readable(data: Seq<u8>) -> bool {
    &&& data.len() >= 5
    &&& data[0] & 0x0F != 0
    &&& data[0] >> 4 != 0
    &&& memory_location_length(data[0]) <= data.len()
    &&& exists|i: int| 1 <= i < 1 + (data[0] & 0x0F) && #[trigger] data[i] != 0
    &&& exists|i: int|
        1 + (data[0] & 0x0F) <= i < memory_location_length(data[0]) && #[trigger] data[i] != 0
}

/// Calls `Request::new` for WriteMemoryByAddress and `Request::data` at
/// `request::WriteMemByAddr`, and turns the memory location that was read
/// into bytes. Claims: the codec reads exactly the payloads that
/// `write_mem_readable` describes; the bytes are the head of the payload, as
/// long as its format byte says.
#[verifier::external_body]
pub(crate) fn codec_write_mem_location(data: &[u8], cfg: &DidConfig) -> (r: Result<
    Vec<u8>,
    Iso14229Error,
>)
    ensures
        r is Ok <==> write_mem_readable(data@),
        r matches Ok(v) ==> v@ == data@.take(memory_location_length(data@[0])),
{
    let did = cfg.map.iter().map(|(k, v)| (DataIdentifier::from(*k), *v)).collect();
    let cfg = Configuration { did, dtc: Default::default() };
    let req = CodecRequest::new(CodecService::WriteMemByAddr, None, data, &cfg)?;
    Ok(req.data::<codec_request::WriteMemByAddr>(&cfg)?.mem_loc.into())
}

/// Whether an InputOutputControl payload can be read: the identifier in its
/// first two bytes is configured, the control parameter in the third is one
/// of the four that are defined, and the state that follows is as long as
/// the value configured for the identifier. Only a short-term adjustment, the
/// parameter `0x03`, carries a state.
pub open spec fn io_ctrl_readable(data: Seq<u8>, dids: Map<u16, usize>) -> bool {
    &&& data.len() >= 3
    &&& data[2] <= 0x03
    &&& dids.contains_key(spec_be16(data[0], data[1]))
    &&& 3 + dids[spec_be16(data[0], data[1])] <= data.len()
    &&& data[2] != 0x03 ==> dids[spec_be16(data[0], data[1])] == 0
}

/// Calls `Request::new` for InputOutputControl and `Request::data` at
/// `request::IOCtrl`. Claims: the codec reads exactly the payloads that
/// `io_ctrl_readable` describes; what it reads is the identifier of the first
/// two bytes, high byte first, the control parameter of the third, and the
/// state after them, as long as the value configured for the identifier.
#[verifier::external_body]
pub(crate) fn codec_io_ctrl(data: &[u8], cfg: &DidConfig) -> (r: Result<
    (u16, u8, Vec<u8>),
    Iso14229Error,
>)
    ensures
        r is Ok <==> io_ctrl_readable(data@, cfg@),
        r matches Ok(p) ==> p.0 == spec_be16(data@[0], data@[1]) && p.1 == data@[2] && p.2@
            == data@.subrange(3, 3 + cfg@[p.0]),
{
    let did = cfg.map.iter().map(|(k, v)| (DataIdentifier::from(*k), *v)).collect();
    let cfg = Configuration { did, dtc: Default::default() };
    let req = CodecRequest::new(CodecService::IOCtrl, None, data, &cfg)?;
    let ctx = req.data::<codec_request::IOCtrl>(&cfg)?;
    Ok((ctx.did.into(), ctx.option.param.into(), ctx.option.state))
}

/// The name the codec prints the service of a byte by.
pub uninterp spec fn service_name(service: u8) -> Seq<char>;

/// Formats the `iso14229_1::Service` that `Service::try_from` makes of a byte
/// with its `Display`. Claims that the text is `service_name` of the byte.
#[verifier::external_body]
pub(crate) fn codec_service_name(service: u8) -> (name: String)
    requires
        Service::of_byte(service) is Some,
    ensures
        name@ == service_name(service),
{
    match CodecService::try_from(service) {
        Ok(known) => known.to_string(),
        Err(_) => String::new(),
    }
}

/// The positive response of a service other than the negative-response
/// marker, as the codec builds it.
pub(crate) fn new_response(
    service: Service,
    sub_function: Option<u8>,
    data: &[u8],
    cfg: &DidConfig,
) -> (r: Result<Response, Iso14229Error>)
    requires
        service != Service::NRC,
    ensures
        match r {
            Ok(resp) => response_refused(service.byte(), sub_function, data@, cfg@) is None
                && resp@ == crate::message::positive_response(service, sub_function, data@),
            Err(e) => response_refused(service.byte(), sub_function, data@, cfg@) == Some(
                codec_error_kind_of(e),
            ),
        },
{
    match codec_new_response(service.to_byte(), sub_function, data, cfg) {
        Ok((sf, payload)) => Ok(Response::positive(service, sf, payload)),
        Err(e) => Err(e),
    }
}

/// Reads the request that follows a service byte, as the codec reads it. A
/// request that was read travels as the bytes it was read from.
pub fn parse_request(service: Service, data: &[u8], cfg: &DidConfig) -> (r: Result<
    Request,
    Iso14229Error,
>)
    ensures
        r matches Ok(req) ==> crate::message::request_bytes(req@) == seq![service.byte()] + data@,
        match r {
            Ok(_) => request_parse_refused(service.byte(), data@, cfg@) is None,
            Err(e) => request_parse_refused(service.byte(), data@, cfg@) == Some(
                codec_error_kind_of(e),
            ),
        },
        r is Ok <==> request_parse_accepted(service.byte(), data@, cfg@),
        r matches Ok(req) ==> req.service == service && (req.sub_function, req.data@)
            == parsed_request_parts(service, data@),
{
    proof {
        crate::message::lemma_service_byte_round_trip(service);
    }
    match codec_parse_request(service.to_byte(), data, cfg) {
        Ok((sf, payload)) => {
            proof {
                lemma_parsed_request_bytes(service, data@);
            }
            Ok(Request { service, sub_function: sf, data: payload })
        },
        Err(e) => Err(e),
    }
}

/// The P2 and P2* values of a positive DiagnosticSessionControl response,
/// P2* in units of 10 ms: the two 16-bit values of the payload, high byte
/// first, P2 cut down to 50 and P2* to 500. There are such where the
/// sub-function byte names a session and the payload has four bytes.
pub open spec fn session_timing_decoded(sub_function: Option<u8>, data: Seq<u8>) -> Option<
    (u16, u16),
> {
    match sub_function {
        Some(b) => if 0x01 <= b <= 0x7F && data.len() == 4 {
            Some(
                (
                    crate::timing::capped(spec_be16(data[0], data[1]) as int, 50) as u16,
                    crate::timing::capped(spec_be16(data[2], data[3]) as int, 500) as u16,
                ),
            )
        } else {
            None
        },
        None => None,
    }
}

/// Calls `Response::new` for DiagnosticSessionControl and `Response::data` at
/// `response::SessionCtrl`. Claims that the codec reads a response exactly
/// where `session_timing_decoded` has a timing, and reads that one.
#[verifier::external_body]
pub(crate) fn codec_session_timing(sub_function: Option<u8>, data: &[u8], cfg: &DidConfig) -> (r:
    Result<(u16, u16), Iso14229Error>)
    ensures
        match r {
            Ok(t) => session_timing_decoded(sub_function, data@) == Some(t),
            Err(_) => session_timing_decoded(sub_function, data@) is None,
        },
{
    let did = cfg.map.iter().map(|(k, v)| (DataIdentifier::from(*k), *v)).collect();
    let cfg = Configuration { did, dtc: Default::default() };
    let resp = CodecResponse::new(CodecService::SessionCtrl, sub_function, data, &cfg)?;
    let timing = resp.data::<codec_response::SessionCtrl>(&cfg)?.0;
    Ok((timing.p2, timing.p2_star))
}

/// The power-down time of a positive ECUReset response: the one payload
/// byte where the sub-function byte is `0x04`, none where it names another
/// reset, whose response has no payload. `None` where the response is neither.
pub open spec fn reset_seconds_decoded(sub_function: Option<u8>, data: Seq<u8>) -> Option<
    Option<u8>,
> {
    match sub_function {
        Some(b) => if b == 0x04 && data.len() == 1 {
            Some(Some(data[0]))
        } else if 0x01 <= b <= 0x7F && b != 0x04 && data.len() == 0 {
            Some(None)
        } else {
            None
        },
        None => None,
    }
}

/// Calls `Response::new` for ECUReset and `Response::data` at
/// `response::ECUReset`. Claims that the codec reads a response exactly where
/// `reset_seconds_decoded` is not `None`, and reads what it says.
#[verifier::external_body]
pub(crate) fn codec_reset_seconds(sub_function: Option<u8>, data: &[u8], cfg: &DidConfig) -> (r:
    Result<Option<u8>, Iso14229Error>)
    ensures
        match r {
            Ok(s) => reset_seconds_decoded(sub_function, data@) == Some(s),
            Err(_) => reset_seconds_decoded(sub_function, data@) is None,
        },
{
    let did = cfg.map.iter().map(|(k, v)| (DataIdentifier::from(*k), *v)).collect();
    let cfg = Configuration { did, dtc: Default::default() };
    let resp = CodecResponse::new(CodecService::ECUReset, sub_function, data, &cfg)?;
    Ok(resp.data::<codec_response::ECUReset>(&cfg)?.second)
}

/// The block counter and data of a positive TransferData response: the first
/// payload byte and the rest. There are such where the payload is not empty.
pub open spec fn transfer_data_decoded(data: Seq<u8>) -> Option<(u8, Seq<u8>)> {
    if data.len() >= 1 {
        Some((data[0], data.skip(1)))
    } else {
        None
    }
}

/// Calls `Response::new` for TransferData and `Response::data` at
/// `response::TransferData`. Claims that the codec reads a response exactly
/// where `transfer_data_decoded` has a block, and reads that one.
#[verifier::external_body]
pub(crate) fn codec_transfer_data(data: &[u8], cfg: &DidConfig) -> (r: Result<
    (u8, Vec<u8>),
    Iso14229Error,
>)
    ensures
        match r {
            Ok(p) => transfer_data_decoded(data@) == Some((p.0, p.1@)),
            Err(_) => transfer_data_decoded(data@) is None,
        },
{
    let did = cfg.map.iter().map(|(k, v)| (DataIdentifier::from(*k), *v)).collect();
    let cfg = Configuration { did, dtc: Default::default() };
    let resp = CodecResponse::new(CodecService::TransferData, None, data, &cfg)?;
    let block = resp.data::<codec_response::TransferData>(&cfg)?;
    Ok((block.sequence, block.data))
}

} // verus!
