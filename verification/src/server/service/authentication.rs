//! Answer of Authentication: every task is accepted, and the answer hands
//! back what the request brought.

use crate::codec::DidConfig;
use crate::message::{Request, RequestView, Service};
use crate::nrc;
use crate::security::SecurityAlgo;
use crate::server::server_impl::{
    built, refusal, reply_negative, reply_positive, DoCanServer, Handled, Outcome, outcome_of,
};
use crate::subfunction::{spec_sub_function_defined, sub_function_defined};
use iso14229_1::request::Authentication as AuthRequest;
use iso14229_1::response::AuthReturnValue;
use iso14229_1::response::Authentication as AuthReply;
use iso14229_1::{AlgorithmIndicator, Iso14229Error, NotNullableData, NullableData};
use vstd::prelude::*;

verus! {

/// A length-prefixed byte field of the codec that may not be empty on the
/// wire.
#[verifier::external_type_specification]
#[verifier::external_body]
pub struct ExNotNullableData(iso14229_1::NotNullableData);

/// A length-prefixed byte field of the codec that may be empty.
#[verifier::external_type_specification]
#[verifier::external_body]
pub struct ExNullableData(iso14229_1::NullableData);

/// The sixteen bytes that name an algorithm.
#[verifier::external_type_specification]
#[verifier::external_body]
pub struct ExAlgorithmIndicator(iso14229_1::AlgorithmIndicator);

/// The return parameter of an authentication response. Its variants are read
/// from the codec.
#[verifier::external_type_specification]
pub struct ExAuthReturnValue(iso14229_1::response::AuthReturnValue);

/// The typed payload of an authentication request. Its variants are read from
/// the codec.
#[verifier::external_type_specification]
pub struct ExAuthRequest(iso14229_1::request::Authentication);

/// The typed payload of an authentication response. Its variants are read
/// from the codec.
#[verifier::external_type_specification]
pub struct ExAuthReply(iso14229_1::response::Authentication);

/// The bytes a `NotNullableData` holds, without the length prefix.
pub uninterp spec fn not_nullable_bytes(d: NotNullableData) -> Seq<u8>;

/// The bytes a `NullableData` holds, without the length prefix.
pub uninterp spec fn nullable_bytes(d: NullableData) -> Seq<u8>;

/// Calls `NotNullableData::default`: the value holds no byte.
#[verifier::external_body]
fn codec_empty_not_nullable() -> (d: NotNullableData)
    ensures
        not_nullable_bytes(d) == Seq::<u8>::empty(),
{
    NotNullableData::default()
}

/// Calls `NullableData::default`: the value holds no byte.
#[verifier::external_body]
fn codec_empty_nullable() -> (d: NullableData)
    ensures
        nullable_bytes(d) == Seq::<u8>::empty(),
{
    NullableData::default()
}

/// The typed payload the codec reads from an authentication request; `None`
/// where it refuses the request.
pub uninterp spec fn authentication_parsed(
    sub_function: Option<u8>,
    data: Seq<u8>,
    dids: Map<u16, usize>,
) -> Option<AuthRequest>;

/// Calls `Request::new` for Authentication and `Request::data` at
/// `request::Authentication`. Claims that the result is
/// `authentication_parsed` of the arguments.
#[verifier::external_body]
fn codec_parse_authentication(sub_function: Option<u8>, data: &[u8], cfg: &DidConfig) -> (r:
    Result<AuthRequest, Iso14229Error>)
    ensures
        match r {
            Ok(q) => authentication_parsed(sub_function, data@, cfg@) == Some(q),
            Err(_) => authentication_parsed(sub_function, data@, cfg@) is None,
        },
{
    let did = cfg.map.iter().map(|(k, v)| (iso14229_1::DataIdentifier::from(*k), *v)).collect();
    let cfg = iso14229_1::Configuration { did, dtc: Default::default() };
    let service = iso14229_1::Service::Authentication;
    let req = iso14229_1::request::Request::new(service, sub_function, data, &cfg)?;
    req.data::<AuthRequest>(&cfg)
}

/// The bytes of a typed authentication response.
pub uninterp spec fn authentication_bytes(reply: AuthReply) -> Seq<u8>;

/// Calls `From<response::Authentication>` of `Vec<u8>`. Claims that the
/// result is `authentication_bytes` of the argument.
#[verifier::external_body]
fn codec_authentication_bytes(reply: AuthReply) -> (out: Vec<u8>)
    ensures
        out@ == authentication_bytes(reply),
{
    reply.into()
}

/// The sub-function byte of a request as it travelled, if it has one.
pub open spec fn origin_of(sub_function: Option<crate::message::SubFunction>) -> Option<u8> {
    match sub_function {
        Some(sf) => Some(sf.origin),
        None => None,
    }
}

/// Whether `p` is the answer that accepts the request `q`: the same task, the
/// return parameter "request accepted", the fields of the request handed
/// back, and every other field empty.
pub open spec fn is_accepted_reply(q: AuthRequest, p: AuthReply) -> bool {
    match q {
        AuthRequest::DeAuthenticate => p == AuthReply::DeAuthenticate(
            AuthReturnValue::RequestAccepted,
        ),
        AuthRequest::VerifyCertificateUnidirectional { config, certificate, challenge } => p
            == (AuthReply::VerifyCertificateUnidirectional {
            value: AuthReturnValue::RequestAccepted,
            challenge: certificate,
            ephemeral_public_key: challenge,
        }),
        AuthRequest::VerifyCertificateBidirectional { config, certificate, challenge } => {
            &&& p matches AuthReply::VerifyCertificateBidirectional {
                value,
                challenge: p_challenge,
                certificate: p_certificate,
                proof_of_ownership,
                ephemeral_public_key,
            }
            &&& value == AuthReturnValue::RequestAccepted
            &&& p_challenge == challenge
            &&& p_certificate == certificate
            &&& not_nullable_bytes(proof_of_ownership) == Seq::<u8>::empty()
            &&& nullable_bytes(ephemeral_public_key) == Seq::<u8>::empty()
        },
        AuthRequest::ProofOfOwnership { proof_of_ownership, ephemeral_public_key } => p
            == (AuthReply::ProofOfOwnership {
            value: AuthReturnValue::RequestAccepted,
            session_keyinfo: ephemeral_public_key,
        }),
        AuthRequest::TransmitCertificate { cert_evaluation_id, certificate } => p
            == AuthReply::TransmitCertificate(AuthReturnValue::RequestAccepted),
        AuthRequest::RequestChallengeForAuthentication { config, algo_indicator } => {
            &&& p matches AuthReply::RequestChallengeForAuthentication {
                value,
                algo_indicator: p_algo,
                challenge,
                additional,
            }
            &&& value == AuthReturnValue::RequestAccepted
            &&& p_algo == algo_indicator
            &&& not_nullable_bytes(challenge) == Seq::<u8>::empty()
            &&& nullable_bytes(additional) == Seq::<u8>::empty()
        },
        AuthRequest::VerifyProofOfOwnershipUnidirectional {
            algo_indicator,
            proof_of_ownership,
            challenge,
            additional,
        } => {
            &&& p matches AuthReply::VerifyProofOfOwnershipUnidirectional {
                value,
                algo_indicator: p_algo,
                session_keyinfo,
            }
            &&& value == AuthReturnValue::RequestAccepted
            &&& p_algo == algo_indicator
            &&& nullable_bytes(session_keyinfo) == Seq::<u8>::empty()
        },
        AuthRequest::VerifyProofOfOwnershipBidirectional {
            algo_indicator,
            proof_of_ownership,
            challenge,
            additional,
        } => {
            &&& p matches AuthReply::VerifyProofOfOwnershipBidirectional {
                value,
                algo_indicator: p_algo,
                proof_of_ownership: p_proof,
                session_keyinfo,
            }
            &&& value == AuthReturnValue::RequestAccepted
            &&& p_algo == algo_indicator
            &&& p_proof == proof_of_ownership
            &&& nullable_bytes(session_keyinfo) == Seq::<u8>::empty()
        },
        AuthRequest::AuthenticationConfiguration => p == AuthReply::AuthenticationConfiguration(
            AuthReturnValue::RequestAccepted,
        ),
    }
}

/// The answer that accepts a request.
pub fn accepted_reply(q: AuthRequest) -> (p: AuthReply)
    ensures
        is_accepted_reply(q, p),
{
    match q {
        AuthRequest::DeAuthenticate => AuthReply::DeAuthenticate(AuthReturnValue::RequestAccepted),
        AuthRequest::VerifyCertificateUnidirectional { config, certificate, challenge } => {
            AuthReply::VerifyCertificateUnidirectional {
                value: AuthReturnValue::RequestAccepted,
                challenge: certificate,
                ephemeral_public_key: challenge,
            }
        },
        AuthRequest::VerifyCertificateBidirectional { config, certificate, challenge } => {
            AuthReply::VerifyCertificateBidirectional {
                value: AuthReturnValue::RequestAccepted,
                challenge,
                certificate,
                proof_of_ownership: codec_empty_not_nullable(),
                ephemeral_public_key: codec_empty_nullable(),
            }
        },
        AuthRequest::ProofOfOwnership { proof_of_ownership, ephemeral_public_key } => {
            AuthReply::ProofOfOwnership {
                value: AuthReturnValue::RequestAccepted,
                session_keyinfo: ephemeral_public_key,
            }
        },
        AuthRequest::TransmitCertificate { cert_evaluation_id, certificate } => {
            AuthReply::TransmitCertificate(AuthReturnValue::RequestAccepted)
        },
        AuthRequest::RequestChallengeForAuthentication { config, algo_indicator } => {
            AuthReply::RequestChallengeForAuthentication {
                value: AuthReturnValue::RequestAccepted,
                algo_indicator,
                challenge: codec_empty_not_nullable(),
                additional: codec_empty_nullable(),
            }
        },
        AuthRequest::VerifyProofOfOwnershipUnidirectional {
            algo_indicator,
            proof_of_ownership,
            challenge,
            additional,
        } => {
            AuthReply::VerifyProofOfOwnershipUnidirectional {
                value: AuthReturnValue::RequestAccepted,
                algo_indicator,
                session_keyinfo: codec_empty_nullable(),
            }
        },
        AuthRequest::VerifyProofOfOwnershipBidirectional {
            algo_indicator,
            proof_of_ownership,
            challenge,
            additional,
        } => {
            AuthReply::VerifyProofOfOwnershipBidirectional {
                value: AuthReturnValue::RequestAccepted,
                algo_indicator,
                proof_of_ownership,
                session_keyinfo: codec_empty_nullable(),
            }
        },
        AuthRequest::AuthenticationConfiguration => AuthReply::AuthenticationConfiguration(
            AuthReturnValue::RequestAccepted,
        ),
    }
}

/// What Authentication answers. The checks come in this order: the payload,
/// the presence of a task, the suppress bit (which this service refuses),
/// the task. An accepted request is answered by a reply `p` that accepts it.
pub open spec fn authentication_outcome(
    req: RequestView,
    dids: Map<u16, usize>,
    outcome: Outcome,
) -> bool {
    match authentication_parsed(origin_of(req.sub_function), req.data, dids) {
        None => outcome == refusal(Service::Authentication, nrc::GENERAL_REJECT),
        Some(q) => match req.sub_function {
            None => outcome == refusal(Service::Authentication, nrc::GENERAL_REJECT),
            Some(sf) => if sf.suppress_positive {
                outcome == refusal(Service::Authentication, nrc::SUB_FUNCTION_NOT_SUPPORTED)
            } else if !spec_sub_function_defined(Service::Authentication, sf.spec_function()) {
                outcome == refusal(
                    Service::Authentication,
                    nrc::INCORRECT_MESSAGE_LENGTH_OR_INVALID_FORMAT,
                )
            } else {
                exists|p: AuthReply|
                    is_accepted_reply(q, p) && outcome == #[trigger] built(
                        Service::Authentication,
                        Some(sf.origin),
                        authentication_bytes(p),
                        dids,
                    )
            },
        },
    }
}

impl<A: SecurityAlgo> DoCanServer<A> {
    pub fn authentication(&self, req: &Request) -> (r: Handled)
        ensures
            authentication_outcome(req@, self.context.config.did_cfg@, outcome_of(r)),
            outcome_of(r) !is Silent,
    {
        let service = Service::Authentication;
        let cfg = &self.context.config.did_cfg;
        let travelled = match req.sub_function {
            Some(sf) => Some(sf.origin),
            None => None,
        };
        match codec_parse_authentication(travelled, req.data.as_slice(), cfg) {
            Err(_) => reply_negative(service, nrc::GENERAL_REJECT),
            Ok(q) => match req.sub_function {
                None => reply_negative(service, nrc::GENERAL_REJECT),
                Some(sf) => {
                    if sf.is_suppress_positive() {
                        reply_negative(service, nrc::SUB_FUNCTION_NOT_SUPPORTED)
                    } else if !sub_function_defined(service, sf.function()) {
                        reply_negative(service, nrc::INCORRECT_MESSAGE_LENGTH_OR_INVALID_FORMAT)
                    } else {
                        let p = accepted_reply(q);
                        let ghost reply = p;
                        let body = codec_authentication_bytes(p);
                        let r = reply_positive(service, Some(sf.origin), body.as_slice(), cfg);
                        assert(outcome_of(r) == built(
                            service,
                            Some(sf.origin),
                            authentication_bytes(reply),
                            cfg@,
                        ));
                        r
                    }
                },
            },
        }
    }
}

} // verus!
