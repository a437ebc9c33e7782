use connector_core::connector::{get_error_response, Authorizedotnet};
use connector_core::errors::ConnectorError;
use connector_core::orchestrator::{
    complete_connector_step, prepare_connector_step, CallConnectorAction, StepOutcome, StepPlan,
};
use connector_core::transformers::{
    parse_create_transaction_request, parse_sync_request, SyncStatus,
};
use connector_core::types::{
    AttemptStatus, CaptureMethod, ConnectorParams, ConnectorsConfig, Method,
    PaymentsAuthorizeData, PaymentsCancelData, PaymentsCaptureData, PaymentsSyncData,
    RefundStatus, RefundsData, RequestPayload, Response, ResponsePayload, RouterData,
    TransactionType, VerifyRequestData,
};

fn config() -> ConnectorsConfig {
    ConnectorsConfig {
        authorizedotnet: ConnectorParams {
            base_url: "https://apitest.authorize.net/xml/v1/request.api".to_string(),
        },
    }
}

fn envelope(request: RequestPayload) -> RouterData {
    RouterData {
        merchant_id: "m1".to_string(),
        connector: "authorizedotnet".to_string(),
        attempt_id: "a1".to_string(),
        status: AttemptStatus::Pending,
        request,
        response: Err(connector_core::types::ErrorResponse {
            code: "No error code".to_string(),
            message: "No error message".to_string(),
            reason: None,
            status_code: 0,
        }),
    }
}

fn authorize_payload(capture_method: Option<CaptureMethod>) -> RequestPayload {
    RequestPayload::Authorize(PaymentsAuthorizeData {
        amount: 100,
        card_number: "5424000000000015".to_string(),
        capture_method,
    })
}

const DECLINED_BODY: &str = "{\"transactionResponse\":{\"responseCode\":2,\"errors\":[{\"errorCode\":\"E00027\",\"errorText\":\"The transaction was unsuccessful.\"},{\"errorCode\":\"E00001\",\"errorText\":\"Second entry, must be ignored.\"}]}}";

#[test]
fn decoding_strips_byte_order_mark() {
    // The same error body, with and without a leading byte-order mark,
    // must decode to the same normalized error.
    let plain = get_error_response(Response::new(DECLINED_BODY.as_bytes(), 502)).unwrap();
    let mut with_bom: Vec<u8> = vec![0xef, 0xbb, 0xbf];
    with_bom.extend_from_slice(DECLINED_BODY.as_bytes());
    let stripped = get_error_response(Response::new(&with_bom, 502)).unwrap();
    assert_eq!(plain.code, stripped.code);
    assert_eq!(plain.message, stripped.message);
    assert_eq!(plain.status_code, stripped.status_code);
}

#[test]
fn error_response_takes_first_entry_and_keeps_status() {
    let err = get_error_response(Response::new(DECLINED_BODY.as_bytes(), 533)).unwrap();
    assert_eq!(err.code, "E00027");
    assert_eq!(err.message, "The transaction was unsuccessful.");
    assert_eq!(err.status_code, 533);
    assert_eq!(err.reason, None);
}

#[test]
fn error_response_falls_back_to_sentinel_on_empty_list() {
    let body = "{\"transactionResponse\":{\"responseCode\":3,\"errors\":[]}}";
    let err = get_error_response(Response::new(body.as_bytes(), 400)).unwrap();
    assert_eq!(err.code, "No error code");
    assert_eq!(err.message, "No error message");
    assert_eq!(err.status_code, 400);
}

#[test]
fn error_response_falls_back_to_sentinel_on_absent_list() {
    let body = "{\"transactionResponse\":{\"responseCode\":3}}";
    let err = get_error_response(Response::new(body.as_bytes(), 401)).unwrap();
    assert_eq!(err.code, "No error code");
    assert_eq!(err.message, "No error message");
    assert_eq!(err.status_code, 401);
}

#[test]
fn error_response_rejects_malformed_body() {
    let err = get_error_response(Response::new(b"not json at all", 500)).unwrap_err();
    assert_eq!(err, ConnectorError::ResponseDeserializationFailed);
}

#[test]
fn inapplicable_flow_plans_no_call_and_leaves_envelope_unchanged() {
    let connector = Authorizedotnet;
    let data = envelope(RequestPayload::Session);
    let plan = prepare_connector_step(&connector, &data, &config(), CallConnectorAction::Trigger)
        .unwrap();
    assert!(matches!(plan, StepPlan::NotApplicable));
    let out = complete_connector_step(&connector, data, StepOutcome::NoCall).unwrap();
    assert_eq!(out.merchant_id, "m1");
    assert_eq!(out.attempt_id, "a1");
    assert_eq!(out.status, AttemptStatus::Pending);
    assert!(matches!(out.request, RequestPayload::Session));
}

#[test]
fn skipped_step_plans_no_call() {
    let connector = Authorizedotnet;
    let data = envelope(authorize_payload(None));
    let plan = prepare_connector_step(&connector, &data, &config(), CallConnectorAction::Avoid)
        .unwrap();
    assert!(matches!(plan, StepPlan::Skipped));
}

#[test]
fn build_request_composes_method_url_headers_and_body() {
    let connector = Authorizedotnet;
    let data = envelope(authorize_payload(None));
    let req = connector.build_request(&data, &config()).unwrap().unwrap();
    assert_eq!(req.method, Method::Post);
    assert_eq!(req.url, "https://apitest.authorize.net/xml/v1/request.api");
    assert_eq!(req.headers.len(), 2);
    assert_eq!(req.headers[0].0, "Content-Type");
    assert_eq!(req.headers[0].1, "application/json");
    assert_eq!(req.headers[1].0, "X-router");
    assert_eq!(req.headers[1].1, "test");
    assert!(req.body.is_some());
}

#[test]
fn request_body_fails_encoding_without_card_number() {
    let connector = Authorizedotnet;
    let data = envelope(RequestPayload::Authorize(PaymentsAuthorizeData {
        amount: 5,
        card_number: String::new(),
        capture_method: None,
    }));
    let err = connector.get_request_body(&data).unwrap_err();
    assert_eq!(err, ConnectorError::RequestEncodingFailed);
}

#[test]
fn request_body_fails_encoding_without_transaction_id() {
    let connector = Authorizedotnet;
    let data = envelope(RequestPayload::Capture(PaymentsCaptureData {
        amount_to_capture: 5,
        connector_transaction_id: String::new(),
    }));
    let err = connector.get_request_body(&data).unwrap_err();
    assert_eq!(err, ConnectorError::RequestEncodingFailed);
}

fn echo_transaction(body: &str) -> connector_core::transformers::CreateTransactionRequest {
    // The test double echoes the encoded request: parse the body back with
    // the real parser chain.
    let value: serde_json::Value = serde_json::from_str(body).unwrap();
    parse_create_transaction_request(&value).unwrap()
}

#[test]
fn round_trip_authorize_automatic_capture() {
    let connector = Authorizedotnet;
    let data = envelope(authorize_payload(Some(CaptureMethod::Automatic)));
    let body = connector.get_request_body(&data).unwrap().unwrap();
    let echoed = echo_transaction(&body);
    assert_eq!(echoed.transaction_type, TransactionType::Payment);
    assert_eq!(echoed.amount, Some(100));
    assert_eq!(echoed.card_number.as_deref(), Some("5424000000000015"));
    assert_eq!(echoed.ref_trans_id, None);
}

#[test]
fn round_trip_authorize_manual_capture() {
    let connector = Authorizedotnet;
    let data = envelope(authorize_payload(Some(CaptureMethod::Manual)));
    let body = connector.get_request_body(&data).unwrap().unwrap();
    let echoed = echo_transaction(&body);
    assert_eq!(echoed.transaction_type, TransactionType::PaymentAuthOnly);
    assert_eq!(echoed.amount, Some(100));
}

#[test]
fn round_trip_verify() {
    let connector = Authorizedotnet;
    let data = envelope(RequestPayload::Verify(VerifyRequestData {
        card_number: "4111111111111111".to_string(),
    }));
    let body = connector.get_request_body(&data).unwrap().unwrap();
    let echoed = echo_transaction(&body);
    assert_eq!(echoed.transaction_type, TransactionType::PaymentAuthOnly);
    assert_eq!(echoed.amount, Some(0));
    assert_eq!(echoed.card_number.as_deref(), Some("4111111111111111"));
}

#[test]
fn round_trip_capture() {
    let connector = Authorizedotnet;
    let data = envelope(RequestPayload::Capture(PaymentsCaptureData {
        amount_to_capture: 42,
        connector_transaction_id: "trans-9".to_string(),
    }));
    let body = connector.get_request_body(&data).unwrap().unwrap();
    let echoed = echo_transaction(&body);
    assert_eq!(echoed.transaction_type, TransactionType::Capture);
    assert_eq!(echoed.amount, Some(42));
    assert_eq!(echoed.card_number, None);
    assert_eq!(echoed.ref_trans_id.as_deref(), Some("trans-9"));
}

#[test]
fn round_trip_void() {
    let connector = Authorizedotnet;
    let data = envelope(RequestPayload::Void(PaymentsCancelData {
        connector_transaction_id: "trans-7".to_string(),
    }));
    let body = connector.get_request_body(&data).unwrap().unwrap();
    let echoed = echo_transaction(&body);
    assert_eq!(echoed.transaction_type, TransactionType::Void);
    assert_eq!(echoed.amount, None);
    assert_eq!(echoed.ref_trans_id.as_deref(), Some("trans-7"));
}

#[test]
fn round_trip_refund() {
    let connector = Authorizedotnet;
    let data = envelope(RequestPayload::RefundExecute(RefundsData {
        connector_transaction_id: "trans-5".to_string(),
        refund_amount: 17,
    }));
    let body = connector.get_request_body(&data).unwrap().unwrap();
    let echoed = echo_transaction(&body);
    assert_eq!(echoed.transaction_type, TransactionType::Refund);
    assert_eq!(echoed.amount, Some(17));
    assert_eq!(echoed.ref_trans_id.as_deref(), Some("trans-5"));
}

#[test]
fn round_trip_sync_request() {
    let connector = Authorizedotnet;
    let data = envelope(RequestPayload::PSync(PaymentsSyncData {
        connector_transaction_id: "trans-3".to_string(),
    }));
    let body = connector.get_request_body(&data).unwrap().unwrap();
    let value: serde_json::Value = serde_json::from_str(&body).unwrap();
    let echoed = parse_sync_request(&value).unwrap();
    assert_eq!(echoed.transaction_id, "trans-3");
}

#[test]
fn round_trip_refund_sync_request() {
    let connector = Authorizedotnet;
    let data = envelope(RequestPayload::RefundSync(RefundsData {
        connector_transaction_id: "trans-4".to_string(),
        refund_amount: 9,
    }));
    let body = connector.get_request_body(&data).unwrap().unwrap();
    let value: serde_json::Value = serde_json::from_str(&body).unwrap();
    let echoed = parse_sync_request(&value).unwrap();
    assert_eq!(echoed.transaction_id, "trans-4");
}

#[test]
fn handle_response_approves_automatic_capture_as_charged() {
    let connector = Authorizedotnet;
    let data = envelope(authorize_payload(None));
    let body = "{\"transactionResponse\":{\"responseCode\":1,\"transId\":\"t-100\"}}";
    let out = connector
        .handle_response(data, &Response::new(body.as_bytes(), 200))
        .unwrap();
    assert_eq!(out.status, AttemptStatus::Charged);
    match out.response {
        Ok(ResponsePayload::Payments(p)) => assert_eq!(p.connector_transaction_id, "t-100"),
        other => panic!("unexpected response slot: {:?}", other.is_ok()),
    }
}

#[test]
fn handle_response_approves_manual_capture_as_authorized() {
    let connector = Authorizedotnet;
    let data = envelope(authorize_payload(Some(CaptureMethod::Manual)));
    let body = "{\"transactionResponse\":{\"responseCode\":1,\"transId\":\"t-101\"}}";
    let out = connector
        .handle_response(data, &Response::new(body.as_bytes(), 200))
        .unwrap();
    assert_eq!(out.status, AttemptStatus::Authorized);
}

#[test]
fn handle_response_tolerates_byte_order_mark() {
    let connector = Authorizedotnet;
    let body = "{\"transactionResponse\":{\"responseCode\":1,\"transId\":\"t-102\"}}";
    let mut with_bom: Vec<u8> = vec![0xef, 0xbb, 0xbf];
    with_bom.extend_from_slice(body.as_bytes());
    let plain = connector
        .handle_response(envelope(authorize_payload(None)), &Response::new(body.as_bytes(), 200))
        .unwrap();
    let stripped = connector
        .handle_response(envelope(authorize_payload(None)), &Response::new(&with_bom, 200))
        .unwrap();
    assert_eq!(plain.status, stripped.status);
    match (plain.response, stripped.response) {
        (Ok(ResponsePayload::Payments(a)), Ok(ResponsePayload::Payments(b))) => {
            assert_eq!(a.connector_transaction_id, b.connector_transaction_id);
        }
        _ => panic!("both replies must project to the same payments payload"),
    }
}

#[test]
fn handle_response_declined_attaches_first_error() {
    let connector = Authorizedotnet;
    let data = envelope(authorize_payload(None));
    let out = connector
        .handle_response(data, &Response::new(DECLINED_BODY.as_bytes(), 200))
        .unwrap();
    assert_eq!(out.status, AttemptStatus::Failure);
    match out.response {
        Err(e) => {
            assert_eq!(e.code, "E00027");
            assert_eq!(e.message, "The transaction was unsuccessful.");
            assert_eq!(e.status_code, 200);
        }
        Ok(_) => panic!("a declined reply must not fill the success slot"),
    }
}

#[test]
fn handle_response_rejects_malformed_body() {
    let connector = Authorizedotnet;
    let data = envelope(authorize_payload(None));
    let err = connector
        .handle_response(data, &Response::new(b"{\"unrelated\":true}", 200))
        .unwrap_err();
    assert_eq!(err, ConnectorError::ResponseDeserializationFailed);
}

#[test]
fn handle_response_projects_payment_sync_status() {
    let connector = Authorizedotnet;
    let data = envelope(RequestPayload::PSync(PaymentsSyncData {
        connector_transaction_id: "t-1".to_string(),
    }));
    let body = "{\"transId\":\"t-1\",\"transactionStatus\":\"settledSuccessfully\"}";
    let out = connector
        .handle_response(data, &Response::new(body.as_bytes(), 200))
        .unwrap();
    assert_eq!(out.status, AttemptStatus::Charged);
    match out.response {
        Ok(ResponsePayload::Payments(p)) => assert_eq!(p.connector_transaction_id, "t-1"),
        _ => panic!("sync must fill the payments slot"),
    }
}

#[test]
fn handle_response_projects_refund_sync_status() {
    let connector = Authorizedotnet;
    let data = envelope(RequestPayload::RefundSync(RefundsData {
        connector_transaction_id: "t-2".to_string(),
        refund_amount: 10,
    }));
    let body = "{\"transId\":\"t-2\",\"transactionStatus\":\"declined\"}";
    let out = connector
        .handle_response(data, &Response::new(body.as_bytes(), 200))
        .unwrap();
    match out.response {
        Ok(ResponsePayload::Refunds(p)) => {
            assert_eq!(p.connector_refund_id, "t-2");
            assert_eq!(p.refund_status, RefundStatus::Failure);
        }
        _ => panic!("refund sync must fill the refunds slot"),
    }
}

#[test]
fn handle_response_approves_refund() {
    let connector = Authorizedotnet;
    let data = envelope(RequestPayload::RefundExecute(RefundsData {
        connector_transaction_id: "t-6".to_string(),
        refund_amount: 10,
    }));
    let body = "{\"transactionResponse\":{\"responseCode\":1,\"transId\":\"r-6\"}}";
    let out = connector
        .handle_response(data, &Response::new(body.as_bytes(), 200))
        .unwrap();
    match out.response {
        Ok(ResponsePayload::Refunds(p)) => {
            assert_eq!(p.connector_refund_id, "r-6");
            assert_eq!(p.refund_status, RefundStatus::Success);
        }
        _ => panic!("an approved refund must fill the refunds slot"),
    }
}

#[test]
fn completing_with_failure_status_attaches_normalized_error() {
    let connector = Authorizedotnet;
    let data = envelope(authorize_payload(None));
    let out = complete_connector_step(
        &connector,
        data,
        StepOutcome::Received(Response::new(DECLINED_BODY.as_bytes(), 500)),
    )
    .unwrap();
    assert_eq!(out.status, AttemptStatus::Pending);
    match out.response {
        Err(e) => {
            assert_eq!(e.code, "E00027");
            assert_eq!(e.status_code, 500);
        }
        Ok(_) => panic!("a failure status must attach the normalized error"),
    }
}

#[test]
fn completing_with_success_status_handles_the_reply() {
    let connector = Authorizedotnet;
    let data = envelope(authorize_payload(None));
    let body = "{\"transactionResponse\":{\"responseCode\":1,\"transId\":\"t-103\"}}";
    let out = complete_connector_step(
        &connector,
        data,
        StepOutcome::Received(Response::new(body.as_bytes(), 200)),
    )
    .unwrap();
    assert_eq!(out.status, AttemptStatus::Charged);
}

#[test]
fn connector_identity_and_defaults() {
    let connector = Authorizedotnet;
    assert_eq!(connector.id(), "authorizedotnet");
    assert_eq!(connector.common_get_content_type(), "application/json");
    assert_eq!(connector.get_content_type(), "application/json");
    let cfg = config();
    assert_eq!(connector.base_url(&cfg), "https://apitest.authorize.net/xml/v1/request.api");
    let url = connector
        .get_url(&envelope(authorize_payload(None)), &cfg)
        .unwrap();
    assert_eq!(url, "https://apitest.authorize.net/xml/v1/request.api");
}

#[test]
fn handle_response_refuses_inapplicable_flows() {
    let connector = Authorizedotnet;
    let data = envelope(RequestPayload::AccessToken);
    let err = connector
        .handle_response(data, &Response::new(b"{}", 200))
        .unwrap_err();
    assert_eq!(err, ConnectorError::ResponseHandlingFailed);
}

#[test]
fn preparing_with_missing_field_reports_encoding_failure() {
    let connector = Authorizedotnet;
    let data = envelope(RequestPayload::Authorize(PaymentsAuthorizeData {
        amount: 1,
        card_number: String::new(),
        capture_method: None,
    }));
    let err = prepare_connector_step(&connector, &data, &config(), CallConnectorAction::Trigger)
        .unwrap_err();
    assert_eq!(err, ConnectorError::RequestEncodingFailed);
}

#[test]
fn sync_status_names_parse_back() {
    let statuses = [
        SyncStatus::AuthorizedPendingCapture,
        SyncStatus::CapturedPendingSettlement,
        SyncStatus::SettledSuccessfully,
        SyncStatus::Declined,
        SyncStatus::Voided,
    ];
    for st in statuses {
        let name = connector_core::transformers::sync_status_name_exec(st);
        assert_eq!(
            connector_core::transformers::sync_status_of_name_exec(name),
            Some(st)
        );
    }
}
