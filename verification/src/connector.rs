//! The connector's integration contract: how an envelope is turned into an
//! outbound request and a raw reply back into an envelope or a normalized
//! error, uniformly across every operation flow.

use vstd::prelude::*;
use crate::decode::{decode_body, decoded_document};
use crate::errors::ConnectorError;
use crate::json::{jmodel, json_of, JVal};
use crate::transformers::{
    attempt_status_for, attempt_status_for_exec, attempt_status_of_sync,
    attempt_status_of_sync_exec, ctr_document, encode_create_transaction_request,
    encode_sync_request, parse_payments_response, parse_sync_response, payments_response_of,
    refund_status_for, refund_status_for_exec, refund_status_of_sync, refund_status_of_sync_exec,
    sync_request_document, sync_response_of_document, AuthorizedotnetCreateSyncRequest,
    CreateTransactionRequest, CreateTransactionRequestModel, ResponseError, ResponseErrorModel,
    TransactionResponseModel,
};
use crate::types::{
    bytes_chunk, CaptureMethod, ConnectorsConfig, ErrorResponse, Method, OutboundRequest,
    PaymentsResponseData, RefundsResponseData, RequestPayload, Response, ResponsePayload,
    RouterData, TransactionType,
};

verus! {

/// The Authorize.net connector: stateless, one contract implementation per
/// operation flow, safe to share across concurrent calls.
#[derive(Clone, Copy, Debug)]
pub struct Authorizedotnet;

/// The sentinel code returned when a connector error body carries no
/// explicit error entry.
pub open spec fn no_error_code() -> Seq<char> {
    "No error code"@
}

/// The sentinel message returned when a connector error body carries no
/// explicit error entry.
pub open spec fn no_error_message() -> Seq<char> {
    "No error message"@
}

/// The sub-transaction semantics of an authorization: a manual capture
/// method asks for authorization only, anything else authorizes and
/// captures in one step.
pub open spec fn authorize_transaction_type(c: Option<CaptureMethod>) -> TransactionType {
    match c {
        Some(CaptureMethod::Manual) => TransactionType::PaymentAuthOnly,
        _ => TransactionType::Payment,
    }
}

/// The wire request a payload encodes to, by its mathematical image:
/// `None` where the flow is not applicable to this connector.
pub enum WireRequest {
    Transaction(CreateTransactionRequestModel),
    Sync(Seq<char>),
}

/// Which wire request each flow's payload produces. Flows the connector has
/// no implementation for (session, access token, pre-authentication, file
/// upload and retrieval) produce none.
pub open spec fn wire_request_of(p: RequestPayload) -> Option<WireRequest> {
    match p {
        RequestPayload::Authorize(d) => Some(
            WireRequest::Transaction(
                CreateTransactionRequestModel {
                    transaction_type: authorize_transaction_type(d.capture_method),
                    amount: Some(d.amount),
                    card_number: Some(d.card_number@),
                    ref_trans_id: None,
                },
            ),
        ),
        RequestPayload::Verify(d) => Some(
            WireRequest::Transaction(
                CreateTransactionRequestModel {
                    transaction_type: TransactionType::PaymentAuthOnly,
                    amount: Some(0u64),
                    card_number: Some(d.card_number@),
                    ref_trans_id: None,
                },
            ),
        ),
        RequestPayload::Capture(d) => Some(
            WireRequest::Transaction(
                CreateTransactionRequestModel {
                    transaction_type: TransactionType::Capture,
                    amount: Some(d.amount_to_capture),
                    card_number: None,
                    ref_trans_id: Some(d.connector_transaction_id@),
                },
            ),
        ),
        RequestPayload::Void(d) => Some(
            WireRequest::Transaction(
                CreateTransactionRequestModel {
                    transaction_type: TransactionType::Void,
                    amount: None,
                    card_number: None,
                    ref_trans_id: Some(d.connector_transaction_id@),
                },
            ),
        ),
        RequestPayload::RefundExecute(d) => Some(
            WireRequest::Transaction(
                CreateTransactionRequestModel {
                    transaction_type: TransactionType::Refund,
                    amount: Some(d.refund_amount),
                    card_number: None,
                    ref_trans_id: Some(d.connector_transaction_id@),
                },
            ),
        ),
        RequestPayload::PSync(d) => Some(WireRequest::Sync(d.connector_transaction_id@)),
        RequestPayload::RefundSync(d) => Some(WireRequest::Sync(d.connector_transaction_id@)),
        _ => None,
    }
}

/// The document a wire request encodes to.
pub open spec fn wire_document(w: WireRequest) -> JVal {
    match w {
        WireRequest::Transaction(m) => ctr_document(m),
        WireRequest::Sync(t) => sync_request_document(t),
    }
}

/// Whether a payload carries the fields its wire request requires: a card
/// number for fresh transactions, a connector transaction id for
/// transactions that reference an earlier one.
pub open spec fn request_encodable(p: RequestPayload) -> bool {
    match p {
        RequestPayload::Authorize(d) => d.card_number@.len() > 0,
        RequestPayload::Verify(d) => d.card_number@.len() > 0,
        RequestPayload::Capture(d) => d.connector_transaction_id@.len() > 0,
        RequestPayload::PSync(d) => d.connector_transaction_id@.len() > 0,
        RequestPayload::Void(d) => d.connector_transaction_id@.len() > 0,
        RequestPayload::RefundExecute(d) => d.connector_transaction_id@.len() > 0,
        RequestPayload::RefundSync(d) => d.connector_transaction_id@.len() > 0,
        _ => true,
    }
}

/// What a body-encoding result must look like: a body whose text parses to
/// the flow's wire document, `None` for an inapplicable flow, and the
/// encoding failure exactly where a required field is missing.
pub open spec fn request_body_post(
    p: RequestPayload,
    r: Result<Option<String>, ConnectorError>,
) -> bool {
    match wire_request_of(p) {
        Some(w) => {
            if request_encodable(p) {
                r matches Ok(b) && b matches Some(s) && json_of(s@) == Some(wire_document(w))
            } else {
                r matches Err(e) && e is RequestEncodingFailed
            }
        },
        None => r matches Ok(b) && b is None,
    }
}

/// Context the connector call must not touch: everything of the envelope
/// except its status and response slot.
pub open spec fn context_preserved(data: RouterData, out: RouterData) -> bool {
    &&& out.merchant_id@ == data.merchant_id@
    &&& out.connector@ == data.connector@
    &&& out.attempt_id@ == data.attempt_id@
    &&& out.request == data.request
}

/// The normalized error a (possibly absent or empty) error list maps to:
/// the first entry's code and message, or the configured sentinel pair, the
/// original status code always preserved.
pub open spec fn error_response_matches(
    errors: Option<Seq<ResponseErrorModel>>,
    status_code: u16,
    e: ErrorResponse,
) -> bool {
    &&& e.status_code == status_code
    &&& e.reason is None
    &&& match errors {
        Some(l) => {
            if l.len() > 0 {
                e.code@ == l[0].error_code && e.message@ == l[0].error_text
            } else {
                e.code@ == no_error_code() && e.message@ == no_error_message()
            }
        },
        None => e.code@ == no_error_code() && e.message@ == no_error_message(),
    }
}

/// What handling a transaction-creation reply must yield: an approved code
/// fills the response slot with the connector transaction id, any other
/// code fills it with the normalized error; the attempt status follows the
/// code and the sub-transaction semantics.
pub open spec fn payments_envelope_matches(
    data: RouterData,
    t: TransactionResponseModel,
    tt: TransactionType,
    status_code: u16,
    out: RouterData,
) -> bool {
    &&& context_preserved(data, out)
    &&& out.status == attempt_status_for(t.response_code, tt)
    &&& if t.response_code == 1u64 {
        out.response matches Ok(ResponsePayload::Payments(p)) && p.connector_transaction_id@ == (
        match t.transaction_id {
            Some(s) => s,
            None => Seq::<char>::empty(),
        })
    } else {
        out.response matches Err(e) && error_response_matches(t.errors, status_code, e)
    }
}

pub open spec fn payments_flow_post(
    data: RouterData,
    body: Seq<u8>,
    status_code: u16,
    tt: TransactionType,
    r: Result<RouterData, ConnectorError>,
) -> bool {
    match decoded_document(body) {
        Some(doc) => match payments_response_of(doc) {
            Some(t) => r matches Ok(out) && payments_envelope_matches(
                data,
                t,
                tt,
                status_code,
                out,
            ),
            None => r matches Err(e) && e is ResponseDeserializationFailed,
        },
        None => r matches Err(e) && e is ResponseDeserializationFailed,
    }
}

pub open spec fn psync_flow_post(
    data: RouterData,
    body: Seq<u8>,
    r: Result<RouterData, ConnectorError>,
) -> bool {
    match decoded_document(body) {
        Some(doc) => match sync_response_of_document(doc) {
            Some((tid, st)) => r matches Ok(out) && {
                &&& context_preserved(data, out)
                &&& out.status == attempt_status_of_sync(st)
                &&& out.response matches Ok(ResponsePayload::Payments(p))
                    && p.connector_transaction_id@ == tid
            },
            None => r matches Err(e) && e is ResponseDeserializationFailed,
        },
        None => r matches Err(e) && e is ResponseDeserializationFailed,
    }
}

pub open spec fn refund_flow_post(
    data: RouterData,
    body: Seq<u8>,
    status_code: u16,
    r: Result<RouterData, ConnectorError>,
) -> bool {
    match decoded_document(body) {
        Some(doc) => match payments_response_of(doc) {
            Some(t) => r matches Ok(out) && {
                &&& context_preserved(data, out)
                &&& out.status == data.status
                &&& if t.response_code == 1u64 {
                    out.response matches Ok(ResponsePayload::Refunds(p)) && {
                        &&& p.refund_status == refund_status_for(t.response_code)
                        &&& p.connector_refund_id@ == (match t.transaction_id {
                            Some(s) => s,
                            None => Seq::<char>::empty(),
                        })
                    }
                } else {
                    out.response matches Err(e) && error_response_matches(
                        t.errors,
                        status_code,
                        e,
                    )
                }
            },
            None => r matches Err(e) && e is ResponseDeserializationFailed,
        },
        None => r matches Err(e) && e is ResponseDeserializationFailed,
    }
}

pub open spec fn rsync_flow_post(
    data: RouterData,
    body: Seq<u8>,
    r: Result<RouterData, ConnectorError>,
) -> bool {
    match decoded_document(body) {
        Some(doc) => match sync_response_of_document(doc) {
            Some((tid, st)) => r matches Ok(out) && {
                &&& context_preserved(data, out)
                &&& out.status == data.status
                &&& out.response matches Ok(ResponsePayload::Refunds(p)) && {
                    &&& p.connector_refund_id@ == tid
                    &&& p.refund_status == refund_status_of_sync(st)
                }
            },
            None => r matches Err(e) && e is ResponseDeserializationFailed,
        },
        None => r matches Err(e) && e is ResponseDeserializationFailed,
    }
}

/// What handling a raw reply must yield, flow by flow. A flow the connector
/// builds no request for has nothing to handle.
pub open spec fn handle_response_post(
    data: RouterData,
    body: Seq<u8>,
    status_code: u16,
    r: Result<RouterData, ConnectorError>,
) -> bool {
    match data.request {
        RequestPayload::Authorize(d) => payments_flow_post(
            data,
            body,
            status_code,
            authorize_transaction_type(d.capture_method),
            r,
        ),
        RequestPayload::Verify(_) => payments_flow_post(
            data,
            body,
            status_code,
            TransactionType::PaymentAuthOnly,
            r,
        ),
        RequestPayload::Capture(_) => payments_flow_post(
            data,
            body,
            status_code,
            TransactionType::Capture,
            r,
        ),
        RequestPayload::Void(_) => payments_flow_post(
            data,
            body,
            status_code,
            TransactionType::Void,
            r,
        ),
        RequestPayload::PSync(_) => psync_flow_post(data, body, r),
        RequestPayload::RefundExecute(_) => refund_flow_post(data, body, status_code, r),
        RequestPayload::RefundSync(_) => rsync_flow_post(data, body, r),
        _ => r matches Err(e) && e is ResponseHandlingFailed,
    }
}

/// What normalizing an error reply must yield: the first error entry's code
/// and message, or the sentinel pair where the body carries no entry, the
/// status code always preserved; a body that does not even have the reply's
/// shape is a deserialization failure, never a silent success.
pub open spec fn error_response_post(
    body: Seq<u8>,
    status_code: u16,
    r: Result<ErrorResponse, ConnectorError>,
) -> bool {
    match decoded_document(body) {
        Some(doc) => match payments_response_of(doc) {
            Some(t) => r matches Ok(e) && error_response_matches(t.errors, status_code, e),
            None => r matches Err(e) && e is ResponseDeserializationFailed,
        },
        None => r matches Err(e) && e is ResponseDeserializationFailed,
    }
}

/// Builds the normalized error from a reply's (possibly absent) error list.
pub fn error_response_from(errors: &Option<Vec<ResponseError>>, status_code: u16) -> (r:
    ErrorResponse)
    ensures
        error_response_matches(
            match *errors {
                Some(l) => Some(l@.map_values(|e: ResponseError| crate::transformers::response_error_view(e))),
                None => None,
            },
            status_code,
            r,
        ),
{
    match errors {
        Some(l) => {
            if l.len() > 0 {
                let first = &l[0];
                ErrorResponse {
                    code: first.error_code.clone(),
                    message: first.error_text.clone(),
                    reason: None,
                    status_code,
                }
            } else {
                ErrorResponse {
                    code: "No error code".to_owned(),
                    message: "No error message".to_owned(),
                    reason: None,
                    status_code,
                }
            }
        },
        None => ErrorResponse {
            code: "No error code".to_owned(),
            message: "No error message".to_owned(),
            reason: None,
            status_code,
        },
    }
}

/// Decodes a raw error reply and extracts the first reported error's code
/// and message; a body carrying no explicit error entry yields the
/// configured sentinel pair rather than failing the whole pipeline.
pub fn get_error_response(res: Response) -> (r: Result<ErrorResponse, ConnectorError>)
    ensures
        error_response_post(res.body(), res.status_code, r),
{
    let doc = match decode_body(bytes_chunk(&res.response)) {
        Some(v) => v,
        None => {
            return Err(ConnectorError::ResponseDeserializationFailed);
        },
    };
    let parsed = match parse_payments_response(&doc) {
        Some(p) => p,
        None => {
            return Err(ConnectorError::ResponseDeserializationFailed);
        },
    };
    Ok(error_response_from(&parsed.transaction_response.errors, res.status_code))
}

impl Authorizedotnet {
    /// The connector's registry identifier.
    pub fn id(&self) -> (r: &'static str)
        ensures
            r@ == "authorizedotnet"@,
    {
        "authorizedotnet"
    }

    /// The content type every flow of this connector sends.
    pub fn common_get_content_type(&self) -> (r: &'static str)
        ensures
            r@ == "application/json"@,
    {
        "application/json"
    }

    /// The configured base endpoint: one endpoint serves every transaction
    /// subtype of this connector.
    pub fn base_url<'a>(&self, connectors: &'a ConnectorsConfig) -> (r: &'a str)
        ensures
            r@ == connectors.authorizedotnet.base_url@,
    {
        connectors.authorizedotnet.base_url.as_str()
    }

    /// Assembles the transport headers. This connector needs no
    /// authorization header: authentication travels in the request body, so
    /// only the content type and the diagnostic marker are sent.
    pub fn build_headers(&self, _req: &RouterData, _connectors: &ConnectorsConfig) -> (r: Result<
        Vec<(String, String)>,
        ConnectorError,
    >)
        ensures
            r matches Ok(h) && {
                &&& h@.len() == 2
                &&& h@[0].0@ == "Content-Type"@ && h@[0].1@ == "application/json"@
                &&& h@[1].0@ == "X-router"@ && h@[1].1@ == "test"@
            },
    {
        let mut h: Vec<(String, String)> = Vec::new();
        h.push(("Content-Type".to_owned(), self.common_get_content_type().to_owned()));
        h.push(("X-router".to_owned(), "test".to_owned()));
        Ok(h)
    }

    pub fn get_headers(&self, req: &RouterData, connectors: &ConnectorsConfig) -> (r: Result<
        Vec<(String, String)>,
        ConnectorError,
    >)
        ensures
            r matches Ok(h) && {
                &&& h@.len() == 2
                &&& h@[0].0@ == "Content-Type"@ && h@[0].1@ == "application/json"@
                &&& h@[1].0@ == "X-router"@ && h@[1].1@ == "test"@
            },
    {
        self.build_headers(req, connectors)
    }

    pub fn get_content_type(&self) -> (r: &'static str)
        ensures
            r@ == "application/json"@,
    {
        self.common_get_content_type()
    }

    /// Resolves the endpoint for the configured environment; every flow of
    /// this connector posts to the base endpoint.
    pub fn get_url(&self, _req: &RouterData, connectors: &ConnectorsConfig) -> (r: Result<
        String,
        ConnectorError,
    >)
        ensures
            r matches Ok(u) && u@ == connectors.authorizedotnet.base_url@,
    {
        Ok(self.base_url(connectors).to_owned())
    }

    /// Converts the flow's typed request payload into the connector's wire
    /// format; fails with the encoding error exactly where the payload
    /// lacks a field the wire format requires.
    pub fn get_request_body(&self, req: &RouterData) -> (r: Result<
        Option<String>,
        ConnectorError,
    >)
        ensures
            request_body_post(req.request, r),
    {
        match &req.request {
            RequestPayload::Authorize(d) => {
                if d.card_number.as_str().is_empty() {
                    return Err(ConnectorError::RequestEncodingFailed);
                }
                let tt = match d.capture_method {
                    Some(CaptureMethod::Manual) => TransactionType::PaymentAuthOnly,
                    _ => TransactionType::Payment,
                };
                let wire = CreateTransactionRequest {
                    transaction_type: tt,
                    amount: Some(d.amount),
                    card_number: Some(d.card_number.clone()),
                    ref_trans_id: None,
                };
                let v = encode_create_transaction_request(&wire);
                proof {
                    crate::transformers::lemma_ctr_document_within_depth(
                        crate::transformers::ctr_view(wire),
                    );
                }
                Ok(Some(crate::json::jprint(&v)))
            },
            RequestPayload::Verify(d) => {
                if d.card_number.as_str().is_empty() {
                    return Err(ConnectorError::RequestEncodingFailed);
                }
                let wire = CreateTransactionRequest {
                    transaction_type: TransactionType::PaymentAuthOnly,
                    amount: Some(0u64),
                    card_number: Some(d.card_number.clone()),
                    ref_trans_id: None,
                };
                let v = encode_create_transaction_request(&wire);
                proof {
                    crate::transformers::lemma_ctr_document_within_depth(
                        crate::transformers::ctr_view(wire),
                    );
                }
                Ok(Some(crate::json::jprint(&v)))
            },
            RequestPayload::Capture(d) => {
                if d.connector_transaction_id.as_str().is_empty() {
                    return Err(ConnectorError::RequestEncodingFailed);
                }
                let wire = CreateTransactionRequest {
                    transaction_type: TransactionType::Capture,
                    amount: Some(d.amount_to_capture),
                    card_number: None,
                    ref_trans_id: Some(d.connector_transaction_id.clone()),
                };
                let v = encode_create_transaction_request(&wire);
                proof {
                    crate::transformers::lemma_ctr_document_within_depth(
                        crate::transformers::ctr_view(wire),
                    );
                }
                Ok(Some(crate::json::jprint(&v)))
            },
            RequestPayload::Void(d) => {
                if d.connector_transaction_id.as_str().is_empty() {
                    return Err(ConnectorError::RequestEncodingFailed);
                }
                let wire = CreateTransactionRequest {
                    transaction_type: TransactionType::Void,
                    amount: None,
                    card_number: None,
                    ref_trans_id: Some(d.connector_transaction_id.clone()),
                };
                let v = encode_create_transaction_request(&wire);
                proof {
                    crate::transformers::lemma_ctr_document_within_depth(
                        crate::transformers::ctr_view(wire),
                    );
                }
                Ok(Some(crate::json::jprint(&v)))
            },
            RequestPayload::RefundExecute(d) => {
                if d.connector_transaction_id.as_str().is_empty() {
                    return Err(ConnectorError::RequestEncodingFailed);
                }
                let wire = CreateTransactionRequest {
                    transaction_type: TransactionType::Refund,
                    amount: Some(d.refund_amount),
                    card_number: None,
                    ref_trans_id: Some(d.connector_transaction_id.clone()),
                };
                let v = encode_create_transaction_request(&wire);
                proof {
                    crate::transformers::lemma_ctr_document_within_depth(
                        crate::transformers::ctr_view(wire),
                    );
                }
                Ok(Some(crate::json::jprint(&v)))
            },
            RequestPayload::PSync(d) => {
                if d.connector_transaction_id.as_str().is_empty() {
                    return Err(ConnectorError::RequestEncodingFailed);
                }
                let wire = AuthorizedotnetCreateSyncRequest {
                    transaction_id: d.connector_transaction_id.clone(),
                };
                let v = encode_sync_request(&wire);
                proof {
                    crate::transformers::lemma_sync_request_document_within_depth(
                        wire.transaction_id@,
                    );
                }
                Ok(Some(crate::json::jprint(&v)))
            },
            RequestPayload::RefundSync(d) => {
                if d.connector_transaction_id.as_str().is_empty() {
                    return Err(ConnectorError::RequestEncodingFailed);
                }
                let wire = AuthorizedotnetCreateSyncRequest {
                    transaction_id: d.connector_transaction_id.clone(),
                };
                let v = encode_sync_request(&wire);
                proof {
                    crate::transformers::lemma_sync_request_document_within_depth(
                        wire.transaction_id@,
                    );
                }
                Ok(Some(crate::json::jprint(&v)))
            },
            _ => Ok(None),
        }
    }

    /// Composes method, endpoint, headers and body into one transport-ready
    /// request; `None` where the flow is intentionally unimplemented for
    /// this connector, which callers must treat as "skip, not an error".
    pub fn build_request(&self, req: &RouterData, connectors: &ConnectorsConfig) -> (r: Result<
        Option<OutboundRequest>,
        ConnectorError,
    >)
        ensures
            r matches Ok(b) ==> (b matches Some(out) ==> {
                &&& wire_request_of(req.request) matches Some(w) && out.body matches Some(s)
                    && json_of(s@) == Some(wire_document(w))
                &&& request_encodable(req.request)
                &&& out.method == Method::Post
                &&& out.url@ == connectors.authorizedotnet.base_url@
                &&& out.headers@.len() == 2
                &&& out.headers@[0].0@ == "Content-Type"@ && out.headers@[0].1@
                    == "application/json"@
                &&& out.headers@[1].0@ == "X-router"@ && out.headers@[1].1@ == "test"@
            }),
            (r matches Ok(b) && b is None) <==> wire_request_of(req.request) is None,
            r matches Err(e) ==> !request_encodable(req.request) && e is RequestEncodingFailed,
    {
        let body = match self.get_request_body(req) {
            Ok(b) => b,
            Err(e) => {
                return Err(e);
            },
        };
        match body {
            Some(s) => {
                let url = match self.get_url(req, connectors) {
                    Ok(u) => u,
                    Err(e) => {
                        return Err(e);
                    },
                };
                let headers = match self.get_headers(req, connectors) {
                    Ok(h) => h,
                    Err(e) => {
                        return Err(e);
                    },
                };
                Ok(
                    Some(
                        OutboundRequest {
                            method: Method::Post,
                            url,
                            headers,
                            body: Some(s),
                        },
                    ),
                )
            },
            None => Ok(None),
        }
    }

    /// Decodes the raw body byte-order-mark-tolerantly, deserializes it
    /// into the connector's reply shape, and projects it into the envelope,
    /// selecting sub-transaction semantics from the capture method where
    /// the connector distinguishes them.
    pub fn handle_response(&self, data: RouterData, res: &Response) -> (r: Result<
        RouterData,
        ConnectorError,
    >)
        ensures
            handle_response_post(data, res.body(), res.status_code, r),
    {
        match &data.request {
            RequestPayload::Authorize(d) => {
                let tt = match d.capture_method {
                    Some(CaptureMethod::Manual) => TransactionType::PaymentAuthOnly,
                    _ => TransactionType::Payment,
                };
                self.handle_payments_reply(data, res, tt)
            },
            RequestPayload::Verify(_) => self.handle_payments_reply(
                data,
                res,
                TransactionType::PaymentAuthOnly,
            ),
            RequestPayload::Capture(_) => self.handle_payments_reply(
                data,
                res,
                TransactionType::Capture,
            ),
            RequestPayload::Void(_) => self.handle_payments_reply(
                data,
                res,
                TransactionType::Void,
            ),
            RequestPayload::PSync(_) => self.handle_psync_reply(data, res),
            RequestPayload::RefundExecute(_) => self.handle_refund_reply(data, res),
            RequestPayload::RefundSync(_) => self.handle_rsync_reply(data, res),
            _ => Err(ConnectorError::ResponseHandlingFailed),
        }
    }

    fn handle_payments_reply(&self, data: RouterData, res: &Response, tt: TransactionType) -> (r:
        Result<RouterData, ConnectorError>)
        ensures
            payments_flow_post(data, res.body(), res.status_code, tt, r),
    {
        let doc = match decode_body(bytes_chunk(&res.response)) {
            Some(v) => v,
            None => {
                return Err(ConnectorError::ResponseDeserializationFailed);
            },
        };
        let parsed = match parse_payments_response(&doc) {
            Some(p) => p,
            None => {
                return Err(ConnectorError::ResponseDeserializationFailed);
            },
        };
        let t = parsed.transaction_response;
        let status = attempt_status_for_exec(t.response_code, tt);
        if t.response_code == 1u64 {
            let tid = match t.transaction_id {
                Some(s) => s,
                None => String::new(),
            };
            Ok(
                RouterData {
                    status,
                    response: Ok(
                        ResponsePayload::Payments(
                            PaymentsResponseData { connector_transaction_id: tid },
                        ),
                    ),
                    ..data
                },
            )
        } else {
            let err = error_response_from(&t.errors, res.status_code);
            Ok(RouterData { status, response: Err(err), ..data })
        }
    }

    fn handle_psync_reply(&self, data: RouterData, res: &Response) -> (r: Result<
        RouterData,
        ConnectorError,
    >)
        ensures
            psync_flow_post(data, res.body(), r),
    {
        let doc = match decode_body(bytes_chunk(&res.response)) {
            Some(v) => v,
            None => {
                return Err(ConnectorError::ResponseDeserializationFailed);
            },
        };
        let parsed = match parse_sync_response(&doc) {
            Some(p) => p,
            None => {
                return Err(ConnectorError::ResponseDeserializationFailed);
            },
        };
        let status = attempt_status_of_sync_exec(parsed.transaction_status);
        Ok(
            RouterData {
                status,
                response: Ok(
                    ResponsePayload::Payments(
                        PaymentsResponseData {
                            connector_transaction_id: parsed.transaction_id,
                        },
                    ),
                ),
                ..data
            },
        )
    }

    fn handle_refund_reply(&self, data: RouterData, res: &Response) -> (r: Result<
        RouterData,
        ConnectorError,
    >)
        ensures
            refund_flow_post(data, res.body(), res.status_code, r),
    {
        let doc = match decode_body(bytes_chunk(&res.response)) {
            Some(v) => v,
            None => {
                return Err(ConnectorError::ResponseDeserializationFailed);
            },
        };
        let parsed = match parse_payments_response(&doc) {
            Some(p) => p,
            None => {
                return Err(ConnectorError::ResponseDeserializationFailed);
            },
        };
        let t = parsed.transaction_response;
        if t.response_code == 1u64 {
            let rs = refund_status_for_exec(t.response_code);
            let tid = match t.transaction_id {
                Some(s) => s,
                None => String::new(),
            };
            Ok(
                RouterData {
                    response: Ok(
                        ResponsePayload::Refunds(
                            RefundsResponseData {
                                connector_refund_id: tid,
                                refund_status: rs,
                            },
                        ),
                    ),
                    ..data
                },
            )
        } else {
            let err = error_response_from(&t.errors, res.status_code);
            Ok(RouterData { response: Err(err), ..data })
        }
    }

    fn handle_rsync_reply(&self, data: RouterData, res: &Response) -> (r: Result<
        RouterData,
        ConnectorError,
    >)
        ensures
            rsync_flow_post(data, res.body(), r),
    {
        let doc = match decode_body(bytes_chunk(&res.response)) {
            Some(v) => v,
            None => {
                return Err(ConnectorError::ResponseDeserializationFailed);
            },
        };
        let parsed = match parse_sync_response(&doc) {
            Some(p) => p,
            None => {
                return Err(ConnectorError::ResponseDeserializationFailed);
            },
        };
        let rs = refund_status_of_sync_exec(parsed.transaction_status);
        Ok(
            RouterData {
                response: Ok(
                    ResponsePayload::Refunds(
                        RefundsResponseData {
                            connector_refund_id: parsed.transaction_id,
                            refund_status: rs,
                        },
                    ),
                ),
                ..data
            },
        )
    }

    /// Decodes a raw error reply through the common pipeline; see the free
    /// function of the same name.
    pub fn get_error_response(&self, res: Response) -> (r: Result<ErrorResponse, ConnectorError>)
        ensures
            error_response_post(res.body(), res.status_code, r),
    {
        get_error_response(res)
    }
}

/// Round trip: for every applicable flow, encoding the flow's request
/// payload into its wire document and reading that document back (as a test
/// double that echoes its input makes the decoder do) recovers the wire
/// request exactly.
pub proof fn lemma_request_round_trip(p: RequestPayload)
    requires
        wire_request_of(p) is Some,
    ensures
        match wire_request_of(p)->0 {
            WireRequest::Transaction(m) => crate::transformers::ctr_of_document(
                wire_document(WireRequest::Transaction(m)),
            ) == Some(m),
            WireRequest::Sync(t) => crate::transformers::sync_request_of_document(
                wire_document(WireRequest::Sync(t)),
            ) == Some(t),
        },
{
    match wire_request_of(p)->0 {
        WireRequest::Transaction(m) => {
            crate::transformers::lemma_create_transaction_round_trip(m);
        },
        WireRequest::Sync(t) => {
            crate::transformers::lemma_sync_request_round_trip(t);
        },
    }
}

} // verus!
