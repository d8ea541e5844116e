//! What can go wrong: failures of the link, of the transport, of the message
//! codec, and violations of the protocol by the peer.

use crate::message::Service;
use crate::nrc;
use vstd::prelude::*;
use vstd::std_specs::convert::FromSpecImpl;

verus! {

/// A failure of the CAN device, as the driver reported it.
#[derive(Clone, Debug, PartialEq, Eq)]
pub enum DeviceError {
    InvalidIdentifier(u32),
    InvalidDLC(usize),
    InvalidFrame(String),
    InitializeError(String),
    NotImplementedError,
    NotSupportedError,
    TimeoutError(String),
    OperationError(String),
    OtherError(String),
}

/// A failure of the segmented transport, as the transport reported it.
#[allow(inconsistent_fields)]
#[derive(Clone, Debug, PartialEq, Eq)]
pub enum TransportError {
    DeviceError,
    EmptyPdu,
    InvalidPdu(Vec<u8>),
    InvalidParam(String),
    InvalidDataLength { actual: usize, expect: usize },
    LengthOutOfRange(usize),
    InvalidStMin(u8),
    InvalidSequence { actual: u8, expect: u8 },
    MixFramesError,
    Timeout { value: u64, unit: String },
    OverloadFlow,
    Other(String),
}

impl TransportError {
    /// The response code a server answers with when transmitting a response
    /// failed this way; `None` where no second attempt is made.
    pub open spec fn spec_nrc(&self) -> Option<u8> {
        match *self {
            TransportError::EmptyPdu => Some(nrc::INCORRECT_MESSAGE_LENGTH_OR_INVALID_FORMAT),
            TransportError::InvalidPdu(_) => Some(nrc::GENERAL_REJECT),
            TransportError::InvalidParam(_) => Some(nrc::GENERAL_REJECT),
            TransportError::InvalidDataLength { .. } => Some(
                nrc::INCORRECT_MESSAGE_LENGTH_OR_INVALID_FORMAT,
            ),
            TransportError::LengthOutOfRange(_) => Some(nrc::REQUEST_OUT_OF_RANGE),
            TransportError::InvalidStMin(_) => Some(nrc::GENERAL_REJECT),
            TransportError::InvalidSequence { .. } => Some(nrc::WRONG_BLOCK_SEQUENCE_COUNTER),
            TransportError::MixFramesError => Some(nrc::GENERAL_REJECT),
            TransportError::Timeout { .. } => Some(nrc::GENERAL_REJECT),
            TransportError::OverloadFlow => Some(nrc::REQUEST_OUT_OF_RANGE),
            TransportError::DeviceError => None,
            TransportError::Other(_) => None,
        }
    }

    #[verifier::when_used_as_spec(spec_nrc)]
    pub fn nrc(&self) -> (code: Option<u8>)
        ensures
            code == self.spec_nrc(),
    {
        match self {
            TransportError::EmptyPdu => Some(nrc::INCORRECT_MESSAGE_LENGTH_OR_INVALID_FORMAT),
            TransportError::InvalidPdu(_) => Some(nrc::GENERAL_REJECT),
            TransportError::InvalidParam(_) => Some(nrc::GENERAL_REJECT),
            TransportError::InvalidDataLength { .. } => Some(
                nrc::INCORRECT_MESSAGE_LENGTH_OR_INVALID_FORMAT,
            ),
            TransportError::LengthOutOfRange(_) => Some(nrc::REQUEST_OUT_OF_RANGE),
            TransportError::InvalidStMin(_) => Some(nrc::GENERAL_REJECT),
            TransportError::InvalidSequence { .. } => Some(nrc::WRONG_BLOCK_SEQUENCE_COUNTER),
            TransportError::MixFramesError => Some(nrc::GENERAL_REJECT),
            TransportError::Timeout { .. } => Some(nrc::GENERAL_REJECT),
            TransportError::OverloadFlow => Some(nrc::REQUEST_OUT_OF_RANGE),
            TransportError::DeviceError => None,
            TransportError::Other(_) => None,
        }
    }

    pub fn is_timeout(&self) -> (b: bool)
        ensures
            b == (*self is Timeout),
    {
        match self {
            TransportError::Timeout { .. } => true,
            _ => false,
        }
    }
}

/// The error type of the message codec. A value of it is carried as the codec
/// made it.
#[verifier::external_type_specification]
#[verifier::external_body]
pub struct ExIso14229Error(iso14229_1::Iso14229Error);

/// Any failure of a diagnostic exchange.
#[allow(inconsistent_fields)]
#[derive(Debug)]
pub enum DoCanError {
    /// The CAN device failed.
    DeviceError(DeviceError),
    /// The codec refused to build or to read a message.
    Iso14229Error(iso14229_1::Iso14229Error),
    /// The server echoed another sub-function than the one requested.
    UnexpectedSubFunction { service: Service, expect: u8, actual: u8 },
    /// The server answered for another service than the one requested.
    UnexpectedResponse { expect: Service, actual: Service },
    /// The server acknowledged another block than the one transferred.
    UnexpectedTransferSequence { expect: u8, actual: u8 },
    /// The server refused the request with this response code.
    NRCError { service: Service, code: u8 },
    /// The transport failed.
    IsoTpError(TransportError),
    /// The registered security algorithm failed.
    SecurityAlgoError(String),
    OtherError(String),
    /// The service has no implementation.
    NotImplement(Service),
}

impl From<DeviceError> for DoCanError {
    fn from(error: DeviceError) -> (e: DoCanError) {
        DoCanError::DeviceError(error)
    }
}

impl FromSpecImpl<DeviceError> for DoCanError {
    open spec fn obeys_from_spec() -> bool {
        true
    }

    open spec fn from_spec(error: DeviceError) -> DoCanError {
        DoCanError::DeviceError(error)
    }
}

impl From<iso14229_1::Iso14229Error> for DoCanError {
    fn from(error: iso14229_1::Iso14229Error) -> (e: DoCanError) {
        DoCanError::Iso14229Error(error)
    }
}

impl FromSpecImpl<iso14229_1::Iso14229Error> for DoCanError {
    open spec fn obeys_from_spec() -> bool {
        true
    }

    open spec fn from_spec(error: iso14229_1::Iso14229Error) -> DoCanError {
        DoCanError::Iso14229Error(error)
    }
}

impl From<TransportError> for DoCanError {
    fn from(error: TransportError) -> (e: DoCanError) {
        DoCanError::IsoTpError(error)
    }
}

impl FromSpecImpl<TransportError> for DoCanError {
    open spec fn obeys_from_spec() -> bool {
        true
    }

    open spec fn from_spec(error: TransportError) -> DoCanError {
        DoCanError::IsoTpError(error)
    }
}

} // verus!
