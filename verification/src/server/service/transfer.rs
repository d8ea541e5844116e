//! Answers of the upload and download services.

use crate::codec::{
    codec_download_reply, codec_download_size, codec_new_request, codec_upload_reply,
    codec_upload_size, download_reply, download_size_parsed, request_accepted, upload_reply,
    upload_size_parsed,
};
use crate::message::{Request, RequestView, Service};
use crate::nrc;
use crate::security::SecurityAlgo;
use crate::server::server_impl::{
    built, refusal, reply_negative, reply_positive, DoCanServer, Handled, Outcome, outcome_of,
};
use crate::subfunction::SessionType;
use vstd::prelude::*;

verus! {

/// What RequestDownload answers outside the default session: the codec's
/// response for a largest block length that is the memory size of the
/// request.
pub open spec fn request_download_outcome(
    session: SessionType,
    req: RequestView,
    dids: Map<u16, usize>,
) -> Outcome {
    if session == SessionType::Default {
        refusal(Service::RequestDownload, nrc::SERVICE_NOT_SUPPORTED_IN_ACTIVE_SESSION)
    } else {
        match download_size_parsed(req.data, dids) {
            Some(size) => built(Service::RequestDownload, None, download_reply(size), dids),
            None => refusal(
                Service::RequestDownload,
                nrc::INCORRECT_MESSAGE_LENGTH_OR_INVALID_FORMAT,
            ),
        }
    }
}

/// What RequestUpload answers outside the default session: the codec's
/// response for a largest block length that is the memory size of the
/// request.
pub open spec fn request_upload_outcome(
    session: SessionType,
    req: RequestView,
    dids: Map<u16, usize>,
) -> Outcome {
    if session == SessionType::Default {
        refusal(Service::RequestUpload, nrc::SERVICE_NOT_SUPPORTED_IN_ACTIVE_SESSION)
    } else {
        match upload_size_parsed(req.data, dids) {
            Some(size) => built(Service::RequestUpload, None, upload_reply(size), dids),
            None => refusal(
                Service::RequestUpload,
                nrc::INCORRECT_MESSAGE_LENGTH_OR_INVALID_FORMAT,
            ),
        }
    }
}

/// What TransferData answers: block counter and data come back as they were
/// sent, where the codec accepts the request.
pub open spec fn transfer_data_outcome(req: RequestView, dids: Map<u16, usize>) -> Outcome {
    if request_accepted(0x36, None, req.data, dids) {
        built(Service::TransferData, None, req.data, dids)
    } else {
        refusal(Service::TransferData, nrc::INCORRECT_MESSAGE_LENGTH_OR_INVALID_FORMAT)
    }
}

/// What RequestTransferExit answers: the parameter record comes back, where
/// the codec accepts the request.
pub open spec fn request_transfer_exit_outcome(req: RequestView, dids: Map<u16, usize>) -> Outcome {
    if request_accepted(0x37, None, req.data, dids) {
        built(Service::RequestTransferExit, None, req.data, dids)
    } else {
        refusal(Service::RequestTransferExit, nrc::SUB_FUNCTION_NOT_SUPPORTED)
    }
}

/// What RequestFileTransfer answers: it is not supported.
pub open spec fn request_file_transfer_outcome(session: SessionType) -> Outcome {
    if session == SessionType::Default {
        refusal(Service::RequestFileTransfer, nrc::SERVICE_NOT_SUPPORTED_IN_ACTIVE_SESSION)
    } else {
        refusal(Service::RequestFileTransfer, nrc::SERVICE_NOT_SUPPORTED)
    }
}

impl<A: SecurityAlgo> DoCanServer<A> {
    pub fn request_download(&self, req: &Request) -> (r: Handled)
        ensures
            outcome_of(r) == request_download_outcome(
                self.context.session@.session,
                req@,
                self.context.config.did_cfg@,
            ),
    {
        let service = Service::RequestDownload;
        let cfg = &self.context.config.did_cfg;
        if self.context.session.get_session_type().is_default() {
            reply_negative(service, nrc::SERVICE_NOT_SUPPORTED_IN_ACTIVE_SESSION)
        } else {
            match codec_download_size(req.data.as_slice(), cfg) {
                Ok(size) => match codec_download_reply(size) {
                    Ok(body) => reply_positive(service, None, body.as_slice(), cfg),
                    Err(e) => Err(e),
                },
                Err(_) => reply_negative(service, nrc::INCORRECT_MESSAGE_LENGTH_OR_INVALID_FORMAT),
            }
        }
    }

    pub fn request_upload(&self, req: &Request) -> (r: Handled)
        ensures
            outcome_of(r) == request_upload_outcome(
                self.context.session@.session,
                req@,
                self.context.config.did_cfg@,
            ),
    {
        let service = Service::RequestUpload;
        let cfg = &self.context.config.did_cfg;
        if self.context.session.get_session_type().is_default() {
            reply_negative(service, nrc::SERVICE_NOT_SUPPORTED_IN_ACTIVE_SESSION)
        } else {
            match codec_upload_size(req.data.as_slice(), cfg) {
                Ok(size) => match codec_upload_reply(size) {
                    Ok(body) => reply_positive(service, None, body.as_slice(), cfg),
                    Err(e) => Err(e),
                },
                Err(_) => reply_negative(service, nrc::INCORRECT_MESSAGE_LENGTH_OR_INVALID_FORMAT),
            }
        }
    }

    pub fn transfer_data(&self, req: &Request) -> (r: Handled)
        ensures
            outcome_of(r) == transfer_data_outcome(req@, self.context.config.did_cfg@),
    {
        let service = Service::TransferData;
        let cfg = &self.context.config.did_cfg;
        match codec_new_request(service.to_byte(), None, req.data.as_slice(), cfg) {
            Ok(_) => reply_positive(service, None, req.data.as_slice(), cfg),
            Err(_) => reply_negative(service, nrc::INCORRECT_MESSAGE_LENGTH_OR_INVALID_FORMAT),
        }
    }

    pub fn request_transfer_exit(&self, req: &Request) -> (r: Handled)
        ensures
            outcome_of(r) == request_transfer_exit_outcome(req@, self.context.config.did_cfg@),
    {
        let service = Service::RequestTransferExit;
        let cfg = &self.context.config.did_cfg;
        match codec_new_request(service.to_byte(), None, req.data.as_slice(), cfg) {
            Ok(_) => reply_positive(service, None, req.data.as_slice(), cfg),
            Err(_) => reply_negative(service, nrc::SUB_FUNCTION_NOT_SUPPORTED),
        }
    }

    pub fn request_file_transfer(&self, req: &Request) -> (r: Handled)
        ensures
            outcome_of(r) == request_file_transfer_outcome(self.context.session@.session),
    {
        let service = Service::RequestFileTransfer;
        if self.context.session.get_session_type().is_default() {
            reply_negative(service, nrc::SERVICE_NOT_SUPPORTED_IN_ACTIVE_SESSION)
        } else {
            reply_negative(service, nrc::SERVICE_NOT_SUPPORTED)
        }
    }
}

} // verus!
