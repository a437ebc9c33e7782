//! The request envelope and the plain data types it carries.

use vstd::prelude::*;
use bytes::Buf;

verus! {

/// Method of an outbound connector request.
#[derive(Clone, Copy, Debug, PartialEq, Eq, Structural)]
pub enum Method {
    Get,
    Post,
}

/// How a payment is to be captured; `Manual` asks for authorization only.
#[derive(Clone, Copy, Debug, PartialEq, Eq, Structural)]
pub enum CaptureMethod {
    Automatic,
    Manual,
}

/// Status of a payment attempt as this core updates it.
#[derive(Clone, Copy, Debug, PartialEq, Eq, Structural)]
pub enum AttemptStatus {
    Started,
    Authorized,
    Charged,
    Voided,
    Pending,
    Failure,
    AuthenticationPending,
    AuthenticationSuccessful,
    AuthenticationFailed,
}

/// Status of a refund as the connector reports it.
#[derive(Clone, Copy, Debug, PartialEq, Eq, Structural)]
pub enum RefundStatus {
    Success,
    Failure,
    Pending,
}

/// The sub-transaction semantics a connector call carries.
#[derive(Clone, Copy, Debug, PartialEq, Eq, Structural)]
pub enum TransactionType {
    Payment,
    PaymentAuthOnly,
    Capture,
    Void,
    Refund,
}

/// Business event category an inbound webhook is classified into.
#[derive(Clone, Copy, Debug, PartialEq, Eq, Structural)]
pub enum IncomingWebhookEvent {
    PaymentIntentSuccess,
}

/// A 3-D Secure protocol version, by components.
#[derive(Clone, Copy, Debug, PartialEq, Eq, Structural)]
pub struct ThreeDsVersion {
    pub major: u8,
    pub minor: u8,
    pub patch: u8,
}

/// Flow-specific request payload: one variant per operation flow.
#[derive(Debug)]
pub enum RequestPayload {
    Authorize(PaymentsAuthorizeData),
    Verify(VerifyRequestData),
    Capture(PaymentsCaptureData),
    PSync(PaymentsSyncData),
    Void(PaymentsCancelData),
    RefundExecute(RefundsData),
    RefundSync(RefundsData),
    Session,
    AccessToken,
    PreAuthentication(PreAuthNRequestData),
    UploadFile(UploadFileRequestData),
    RetrieveFile(RetrieveFileRequestData),
}

#[derive(Debug)]
pub struct PaymentsAuthorizeData {
    pub amount: u64,
    pub card_number: String,
    pub capture_method: Option<CaptureMethod>,
}

#[derive(Debug)]
pub struct VerifyRequestData {
    pub card_number: String,
}

#[derive(Debug)]
pub struct PaymentsCaptureData {
    pub amount_to_capture: u64,
    pub connector_transaction_id: String,
}

#[derive(Debug)]
pub struct PaymentsSyncData {
    pub connector_transaction_id: String,
}

#[derive(Debug)]
pub struct PaymentsCancelData {
    pub connector_transaction_id: String,
}

#[derive(Debug)]
pub struct RefundsData {
    pub connector_transaction_id: String,
    pub refund_amount: u64,
}

#[derive(Debug)]
pub struct PreAuthNRequestData {
    pub card_holder_account_number: String,
}

#[derive(Debug)]
pub struct UploadFileRequestData {
    pub file_key: String,
    pub file: Vec<u8>,
    pub file_type: String,
}

#[derive(Debug)]
pub struct RetrieveFileRequestData {
    pub provider_file_id: String,
}

/// Flow-specific response payload placed into the envelope's response slot.
#[derive(Debug)]
pub enum ResponsePayload {
    Payments(PaymentsResponseData),
    Refunds(RefundsResponseData),
    Authentication(AuthenticationResponseData),
    Upload(UploadFileResponse),
    Retrieve(RetrieveFileResponse),
}

#[derive(Debug)]
pub struct PaymentsResponseData {
    pub connector_transaction_id: String,
}

#[derive(Debug)]
pub struct RefundsResponseData {
    pub connector_refund_id: String,
    pub refund_status: RefundStatus,
}

/// What a pre-authentication call returns: the 3-D Secure server's
/// identifiers and the maximum protocol version it supports.
#[derive(Debug)]
pub enum AuthenticationResponseData {
    PreAuthNResponse {
        threeds_server_transaction_id: String,
        maximum_supported_3ds_version: ThreeDsVersion,
        connector_authentication_id: String,
        three_ds_method_data: String,
        three_ds_method_url: Option<String>,
        message_version: String,
    },
}

#[derive(Debug)]
pub struct UploadFileResponse {
    pub provider_file_id: String,
}

#[derive(Debug)]
pub struct RetrieveFileResponse {
    pub file_data: Vec<u8>,
}

/// Normalized error shape: produced whenever a connector reply does not
/// represent success, whatever the connector's native error format.
#[derive(Debug)]
pub struct ErrorResponse {
    pub code: String,
    pub message: String,
    pub reason: Option<String>,
    pub status_code: u16,
}

/// The generic carrier of one logical operation's state across the whole
/// pipeline: a flow-specific request payload, a response slot, and
/// flow-independent context.
#[derive(Debug)]
pub struct RouterData {
    pub merchant_id: String,
    pub connector: String,
    pub attempt_id: String,
    pub status: AttemptStatus,
    pub request: RequestPayload,
    pub response: Result<ResponsePayload, ErrorResponse>,
}

/// A transport-ready outbound connector request.
#[derive(Debug)]
pub struct OutboundRequest {
    pub method: Method,
    pub url: String,
    pub headers: Vec<(String, String)>,
    pub body: Option<String>,
}

/// Static per-connector endpoint configuration.
#[derive(Debug)]
pub struct ConnectorParams {
    pub base_url: String,
}

/// Endpoint configuration of every known connector.
#[derive(Debug)]
pub struct ConnectorsConfig {
    pub authorizedotnet: ConnectorParams,
}

#[verifier::external_type_specification]
#[verifier::external_body]
pub struct ExBytes(bytes::Bytes);

/// The byte contents a `bytes::Bytes` buffer holds.
pub uninterp spec fn bytes_view(b: bytes::Bytes) -> Seq<u8>;

/// Relies on bytes::Buf::chunk for Bytes: a contiguous buffer returns its
/// whole contents as one slice.
#[verifier::external_body]
pub(crate) fn bytes_chunk(b: &bytes::Bytes) -> (r: &[u8])
    ensures
        r@ == bytes_view(*b),
{
    b.chunk()
}

/// Relies on bytes::Bytes::copy_from_slice: the new buffer holds a copy of
/// the slice.
#[verifier::external_body]
fn bytes_copy_from_slice(data: &[u8]) -> (r: bytes::Bytes)
    ensures
        bytes_view(r) == data@,
{
    bytes::Bytes::copy_from_slice(data)
}

/// Raw HTTP response: byte body and status code, consumed once by the
/// decoding pipeline.
#[derive(Debug)]
pub struct Response {
    pub response: bytes::Bytes,
    pub status_code: u16,
}

impl Response {
    /// The byte contents of the body.
    pub open spec fn body(&self) -> Seq<u8> {
        bytes_view(self.response)
    }

    pub fn new(body: &[u8], status_code: u16) -> (r: Response)
        ensures
            r.body() == body@,
            r.status_code == status_code,
    {
        Response { response: bytes_copy_from_slice(body), status_code }
    }
}

} // verus!
