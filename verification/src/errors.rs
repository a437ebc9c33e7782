//! The two cooperating error taxonomies: `ConnectorError` for
//! request/response mechanics inside a connector call, and
//! `ApiErrorResponse` for the caller-facing errors the flows convert
//! connector errors into at their boundaries.

use vstd::prelude::*;

verus! {

/// Errors of the request-construction and response-decoding mechanics of a
/// connector call, and of webhook handling.
#[derive(Clone, Debug, PartialEq, Eq)]
pub enum ConnectorError {
    RequestEncodingFailed,
    ResponseDeserializationFailed,
    ResponseHandlingFailed,
    WebhookSignatureNotFound,
    WebhookSourceVerificationFailed,
    WebhookReferenceIdNotFound,
    WebhookEventTypeNotFound,
    WebhookVerificationSecretNotFound,
    FileValidationFailed { reason: String },
}

/// Caller-facing errors, one level above `ConnectorError`: connector-level
/// failures are converted into these at flow boundaries, attaching connector
/// identity and the original code and message.
#[derive(Clone, Debug, PartialEq, Eq)]
pub enum ApiErrorResponse {
    PaymentNotFound,
    DisputeNotFound { dispute_id: String },
    FileNotFound,
    FileNotAvailable,
    FileProviderNotSupported { message: String },
    FileValidationFailed { reason: String },
    MissingDisputeId,
    ExternalConnectorError {
        code: String,
        message: String,
        connector: String,
        status_code: u16,
        reason: Option<String>,
    },
    GenericDuplicateError { message: String },
    InternalServerError,
    NotImplemented { message: String },
}

} // verus!
