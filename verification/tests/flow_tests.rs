use connector_core::connector::Authorizedotnet;
use connector_core::errors::{ApiErrorResponse, ConnectorError};
use connector_core::files::{
    delete_file_plan, file_info_from_plan, file_retrieve_plan, fold_connector_retrieve,
    fold_connector_upload, local_store_upload_outcome, parse_file_purpose,
    provider_connector_name, supports_file_storage_module, upload_file_plan, CreateFileRequest,
    DisputeRecord, FileDataRequired, FileMetadata, FilePurpose, FileRetrievePlan,
    FileUploadPlan, FileUploadProvider,
};
use connector_core::pre_auth::{
    authentication_id_with_prefix, build_authentication_attempt_update, create_new_authentication,
    duplicate_authentication_error, fold_payment_method_pre_auth, fold_pre_auth_result,
    pre_auth_router_data, AuthenticationLifecycleStatus, AuthenticationStatus,
};
use connector_core::types::{
    AttemptStatus, AuthenticationResponseData, ErrorResponse, RequestPayload, ResponsePayload,
    RetrieveFileResponse, ThreeDsVersion, UploadFileResponse,
};
use connector_core::webhook::SignatureAlgorithm;

fn headers(pairs: &[(&str, &[u8])]) -> Vec<(String, Vec<u8>)> {
    pairs
        .iter()
        .map(|(name, value)| (name.to_string(), value.to_vec()))
        .collect()
}

#[test]
fn webhook_signature_extracts_value_after_separator() {
    let connector = Authorizedotnet;
    let h = headers(&[("X-ANET-Signature", b"v1=abcdef")]);
    let sig = connector.get_webhook_source_verification_signature(&h).unwrap();
    assert_eq!(sig, b"abcdef".to_vec());
}

#[test]
fn webhook_signature_header_name_matches_case_insensitively() {
    let connector = Authorizedotnet;
    let h = headers(&[("x-anet-signature", b"v1=abcdef")]);
    let sig = connector.get_webhook_source_verification_signature(&h).unwrap();
    assert_eq!(sig, b"abcdef".to_vec());
}

#[test]
fn utf8_text_reads_back_and_rejects_invalid_bytes() {
    assert_eq!(
        connector_core::strutil::utf8_string(b"dispute_evidence".to_vec()).as_deref(),
        Some("dispute_evidence")
    );
    assert_eq!(connector_core::strutil::utf8_string(vec![0xff, 0xfe]), None);
}

#[test]
fn webhook_signature_without_separator_fails_source_verification() {
    let connector = Authorizedotnet;
    let h = headers(&[("X-ANET-Signature", b"noequalssign")]);
    let err = connector
        .get_webhook_source_verification_signature(&h)
        .unwrap_err();
    assert_eq!(err, ConnectorError::WebhookSourceVerificationFailed);
}

#[test]
fn webhook_signature_missing_header_is_not_found() {
    let connector = Authorizedotnet;
    let h = headers(&[("Content-Type", b"application/json")]);
    let err = connector
        .get_webhook_source_verification_signature(&h)
        .unwrap_err();
    assert_eq!(err, ConnectorError::WebhookSignatureNotFound);
}

#[test]
fn webhook_signature_unreadable_header_is_not_found() {
    let connector = Authorizedotnet;
    let h = headers(&[("X-ANET-Signature", &[0x76, 0x31, 0x3d, 0x07])]);
    let err = connector
        .get_webhook_source_verification_signature(&h)
        .unwrap_err();
    assert_eq!(err, ConnectorError::WebhookSignatureNotFound);
}

#[test]
fn webhook_message_is_the_raw_body() {
    let connector = Authorizedotnet;
    let body = b"{\"payload\":{\"id\":\"x\"}}";
    assert_eq!(connector.get_webhook_source_verification_message(body), body.to_vec());
}

#[test]
fn webhook_algorithm_is_the_keyed_hash() {
    let connector = Authorizedotnet;
    assert_eq!(
        connector.get_webhook_source_verification_algorithm(),
        SignatureAlgorithm::HmacSha512
    );
}

#[test]
fn webhook_secret_key_is_namespaced() {
    let connector = Authorizedotnet;
    assert_eq!(
        connector.webhook_secret_config_key("merchant42"),
        "whsec_verification_authorizedotnet_merchant42"
    );
}

#[test]
fn webhook_secret_resolution() {
    let connector = Authorizedotnet;
    let secret = connector
        .get_webhook_source_verification_merchant_secret(Some("s3cr3t".to_string()))
        .unwrap();
    assert_eq!(secret, b"s3cr3t".to_vec());
    let err = connector
        .get_webhook_source_verification_merchant_secret(None)
        .unwrap_err();
    assert_eq!(err, ConnectorError::WebhookVerificationSecretNotFound);
}

#[test]
fn webhook_event_type_classifies_capture_created_as_payment_success() {
    let connector = Authorizedotnet;
    let body = "{\"eventType\":\"net.authorize.payment.authcapture.created\"}";
    let ev = connector.get_webhook_event_type(body.as_bytes()).unwrap();
    assert_eq!(
        ev,
        connector_core::types::IncomingWebhookEvent::PaymentIntentSuccess
    );
}

#[test]
fn webhook_event_type_rejects_unknown_names() {
    let connector = Authorizedotnet;
    let body = "{\"eventType\":\"net.authorize.customer.created\"}";
    let err = connector
        .get_webhook_event_type(body.as_bytes())
        .unwrap_err();
    assert_eq!(err, ConnectorError::WebhookEventTypeNotFound);
}

#[test]
fn webhook_event_type_needs_a_parsable_envelope() {
    let connector = Authorizedotnet;
    let err = connector.get_webhook_event_type(b"[]").unwrap_err();
    assert_eq!(err, ConnectorError::WebhookReferenceIdNotFound);
}

#[test]
fn webhook_reference_id_comes_from_the_payload() {
    let connector = Authorizedotnet;
    let body = "{\"payload\":{\"id\":\"evt-77\"}}";
    let id = connector
        .get_webhook_object_reference_id(body.as_bytes())
        .unwrap();
    assert_eq!(id, "evt-77");
    let err = connector
        .get_webhook_object_reference_id(b"{\"payload\":{}}")
        .unwrap_err();
    assert_eq!(err, ConnectorError::WebhookReferenceIdNotFound);
}

#[test]
fn webhook_resource_object_is_the_normalized_sync_shape() {
    let connector = Authorizedotnet;
    let body = "{\"eventType\":\"net.authorize.payment.authcapture.created\",\"payload\":{\"id\":\"evt-9\"}}";
    let value = connector.get_webhook_resource_object(body.as_bytes()).unwrap();
    let expected: serde_json::Value = serde_json::from_str(
        "{\"transId\":\"evt-9\",\"transactionStatus\":\"capturedPendingSettlement\"}",
    )
    .unwrap();
    assert_eq!(value, expected);
}

#[test]
fn pre_auth_fold_suspends_confirmation_for_version_two_and_up() {
    let mut should_continue = true;
    let requested = fold_pre_auth_result(
        ThreeDsVersion { major: 2, minor: 2, patch: 0 },
        &mut should_continue,
    );
    assert!(requested);
    assert!(!should_continue);

    let mut should_continue = true;
    let requested = fold_pre_auth_result(
        ThreeDsVersion { major: 3, minor: 0, patch: 0 },
        &mut should_continue,
    );
    assert!(requested);
    assert!(!should_continue);
}

#[test]
fn pre_auth_fold_leaves_confirmation_below_version_two() {
    let mut should_continue = true;
    let requested = fold_pre_auth_result(
        ThreeDsVersion { major: 1, minor: 0, patch: 2 },
        &mut should_continue,
    );
    assert!(!requested);
    assert!(should_continue);
}

#[test]
fn new_authentication_record_starts_unused() {
    let record = create_new_authentication(
        authentication_id_with_prefix("gen123"),
        "m1".to_string(),
    );
    assert_eq!(record.authentication_id, "authn_gen123");
    assert_eq!(record.merchant_id, "m1");
    assert_eq!(record.authentication_status, AuthenticationStatus::Started);
    assert_eq!(record.lifecycle_status, AuthenticationLifecycleStatus::Unused);
    assert_eq!(record.connector, "");
    assert_eq!(record.connector_authentication_id, None);
    assert_eq!(record.authentication_data, None);
}

#[test]
fn duplicate_authentication_reports_the_identifier() {
    let err = duplicate_authentication_error("authn_gen123");
    assert_eq!(
        err,
        ApiErrorResponse::GenericDuplicateError {
            message: "Authentication with authentication_id authn_gen123 already exists"
                .to_string(),
        }
    );
}

#[test]
fn pre_auth_envelope_carries_card_and_placeholder_response() {
    let data = pre_auth_router_data(
        "4000000000000002".to_string(),
        "m1".to_string(),
        "authorizedotnet".to_string(),
        "a1".to_string(),
    );
    match &data.request {
        RequestPayload::PreAuthentication(d) => {
            assert_eq!(d.card_holder_account_number, "4000000000000002");
        }
        _ => panic!("the envelope must carry the pre-authentication payload"),
    }
    match &data.response {
        Ok(ResponsePayload::Authentication(AuthenticationResponseData::PreAuthNResponse {
            maximum_supported_3ds_version,
            three_ds_method_url,
            ..
        })) => {
            assert_eq!(
                *maximum_supported_3ds_version,
                ThreeDsVersion { major: 0, minor: 0, patch: 0 }
            );
            assert_eq!(*three_ds_method_url, None);
        }
        _ => panic!("the placeholder response must be the empty pre-auth response"),
    }
}

#[test]
fn attempt_update_follows_the_authentication_record() {
    let update = build_authentication_attempt_update(
        AuthenticationStatus::Started,
        true,
        "authorizedotnet".to_string(),
        "authn_1".to_string(),
        "postgres_only".to_string(),
    );
    assert_eq!(update.status, AttemptStatus::AuthenticationPending);
    assert_eq!(update.external_3ds_authentication_requested, Some(true));
    assert_eq!(update.authentication_provider.as_deref(), Some("authorizedotnet"));
    assert_eq!(update.authentication_id.as_deref(), Some("authn_1"));
    assert_eq!(update.updated_by, "postgres_only");
}

#[test]
fn payment_method_fold_reports_the_unimplemented_path() {
    let err = fold_payment_method_pre_auth().unwrap_err();
    assert!(matches!(err, ApiErrorResponse::NotImplemented { .. }));
}

fn file_request(dispute_id: Option<&str>) -> CreateFileRequest {
    CreateFileRequest {
        purpose: FilePurpose::DisputeEvidence,
        dispute_id: dispute_id.map(|s| s.to_string()),
        file_size: 4,
        file_type: "image/png".to_string(),
        file: vec![1, 2, 3, 4],
    }
}

fn dispute() -> DisputeRecord {
    DisputeRecord {
        dispute_id: "d1".to_string(),
        connector: "authorizedotnet".to_string(),
        merchant_connector_id: Some("mca1".to_string()),
        payment_id: "p1".to_string(),
        attempt_id: "a1".to_string(),
    }
}

fn metadata(provider: Option<FileUploadProvider>, available: bool) -> FileMetadata {
    FileMetadata {
        file_upload_provider: provider,
        provider_file_id: Some("pf1".to_string()),
        available,
        file_type: "image/png".to_string(),
        merchant_connector_id: None,
    }
}

#[test]
fn file_purpose_parses_dispute_evidence_only() {
    assert_eq!(parse_file_purpose("dispute_evidence"), Some(FilePurpose::DisputeEvidence));
    assert_eq!(parse_file_purpose("invoice"), None);
}

#[test]
fn upload_validation_needs_a_dispute_id() {
    let err = validate(file_request(None), Some(dispute()), Ok(())).unwrap_err();
    assert_eq!(err, ApiErrorResponse::MissingDisputeId);
}

fn validate(
    request: CreateFileRequest,
    dispute: Option<DisputeRecord>,
    verdict: Result<(), ConnectorError>,
) -> Result<(), ApiErrorResponse> {
    connector_core::files::validate_file_upload(&request, dispute.as_ref(), verdict)
}

#[test]
fn upload_validation_needs_an_existing_dispute() {
    let err = validate(file_request(Some("d1")), None, Ok(())).unwrap_err();
    assert_eq!(
        err,
        ApiErrorResponse::DisputeNotFound { dispute_id: "d1".to_string() }
    );
}

#[test]
fn upload_validation_forwards_the_connector_verdict() {
    assert!(validate(file_request(Some("d1")), Some(dispute()), Ok(())).is_ok());
    let err = validate(
        file_request(Some("d1")),
        Some(dispute()),
        Err(ConnectorError::FileValidationFailed { reason: "file too large".to_string() }),
    )
    .unwrap_err();
    assert_eq!(
        err,
        ApiErrorResponse::FileValidationFailed { reason: "file too large".to_string() }
    );
    let err = validate(
        file_request(Some("d1")),
        Some(dispute()),
        Err(ConnectorError::ResponseHandlingFailed),
    )
    .unwrap_err();
    assert_eq!(err, ApiErrorResponse::InternalServerError);
}

#[test]
fn unavailable_file_never_retrieves_whatever_the_provider() {
    let file_id = "f1".to_string();
    for provider in [FileUploadProvider::Router, FileUploadProvider::Authorizedotnet] {
        let err = file_retrieve_plan(
            Some(&file_id),
            Some(&metadata(Some(provider), false)),
            FileDataRequired::Required,
        )
        .unwrap_err();
        assert_eq!(err, ApiErrorResponse::FileNotAvailable);
    }
}

#[test]
fn local_store_file_is_read_locally_never_fetched() {
    let file_id = "f1".to_string();
    let plan = file_retrieve_plan(
        Some(&file_id),
        Some(&metadata(Some(FileUploadProvider::Router), true)),
        FileDataRequired::Required,
    )
    .unwrap();
    match plan {
        FileRetrievePlan::FetchLocal { provider_file_id, file_type } => {
            assert_eq!(provider_file_id, "pf1");
            assert_eq!(file_type, "image/png");
        }
        _ => panic!("an available local-store file must be read locally"),
    }
}

#[test]
fn connector_file_fetch_follows_the_data_required_flag() {
    let file_id = "f1".to_string();
    let meta = metadata(Some(FileUploadProvider::Authorizedotnet), true);
    let plan = file_retrieve_plan(Some(&file_id), Some(&meta), FileDataRequired::Required).unwrap();
    assert!(matches!(plan, FileRetrievePlan::FetchConnector { .. }));
    let plan =
        file_retrieve_plan(Some(&file_id), Some(&meta), FileDataRequired::NotRequired).unwrap();
    match plan {
        FileRetrievePlan::MetadataOnly { provider_file_id, .. } => {
            assert_eq!(provider_file_id, "pf1")
        }
        _ => panic!("without the flag only metadata is returned"),
    }
}

#[test]
fn retrieval_without_file_id_is_empty() {
    let plan = file_retrieve_plan(None, None, FileDataRequired::Required).unwrap();
    assert!(matches!(plan, FileRetrievePlan::Empty));
    let info = file_info_from_plan(plan, None);
    assert_eq!(info.file_data, None);
    assert_eq!(info.provider_file_id, None);
    assert_eq!(info.file_type, None);
}

#[test]
fn retrieval_of_missing_metadata_is_not_found() {
    let file_id = "f1".to_string();
    let err = file_retrieve_plan(Some(&file_id), None, FileDataRequired::Required).unwrap_err();
    assert_eq!(err, ApiErrorResponse::FileNotFound);
}

#[test]
fn file_info_carries_fetched_bytes() {
    let plan = FileRetrievePlan::FetchLocal {
        provider_file_id: "pf1".to_string(),
        file_type: "image/png".to_string(),
    };
    let info = file_info_from_plan(plan, Some(vec![9, 9]));
    assert_eq!(info.file_data, Some(vec![9, 9]));
    assert_eq!(info.provider_file_id.as_deref(), Some("pf1"));
    assert_eq!(info.file_type.as_deref(), Some("image/png"));
}

#[test]
fn deletion_is_limited_to_available_local_store_files() {
    assert_eq!(delete_file_plan(None).unwrap_err(), ApiErrorResponse::FileNotFound);
    assert_eq!(
        delete_file_plan(Some(&metadata(Some(FileUploadProvider::Router), false))).unwrap_err(),
        ApiErrorResponse::FileNotAvailable
    );
    assert_eq!(
        delete_file_plan(Some(&metadata(Some(FileUploadProvider::Router), true))).unwrap(),
        "pf1"
    );
    let err = delete_file_plan(Some(&metadata(Some(FileUploadProvider::Authorizedotnet), true)))
        .unwrap_err();
    assert!(matches!(err, ApiErrorResponse::FileProviderNotSupported { .. }));
}

#[test]
fn upload_goes_to_the_local_store_when_unsupported() {
    let connector = Authorizedotnet;
    assert!(!supports_file_storage_module(&connector));
    let plan = upload_file_plan(
        &file_request(Some("d1")),
        Some(&dispute()),
        supports_file_storage_module(&connector),
        "key-1".to_string(),
    )
    .unwrap();
    match plan {
        FileUploadPlan::LocalStore { file_key } => assert_eq!(file_key, "key-1"),
        _ => panic!("an unsupported connector stores locally"),
    }
    let outcome = local_store_upload_outcome("key-1".to_string());
    assert_eq!(outcome.provider_file_id, "key-1");
    assert_eq!(outcome.file_upload_provider, FileUploadProvider::Router);
    assert_eq!(outcome.profile_id, None);
    assert_eq!(outcome.merchant_connector_id, None);
}

#[test]
fn upload_goes_to_a_supporting_connector() {
    let plan = upload_file_plan(
        &file_request(Some("d1")),
        Some(&dispute()),
        true,
        "key-1".to_string(),
    )
    .unwrap();
    match plan {
        FileUploadPlan::ConnectorUpload { connector } => {
            assert_eq!(connector, "authorizedotnet")
        }
        _ => panic!("a supporting connector receives the file"),
    }
}

#[test]
fn upload_plan_validates_the_dispute() {
    let err = upload_file_plan(&file_request(None), Some(&dispute()), false, "k".to_string())
        .unwrap_err();
    assert_eq!(err, ApiErrorResponse::MissingDisputeId);
    let err =
        upload_file_plan(&file_request(Some("d1")), None, false, "k".to_string()).unwrap_err();
    assert_eq!(
        err,
        ApiErrorResponse::DisputeNotFound { dispute_id: "d1".to_string() }
    );
}

#[test]
fn connector_upload_outcome_folds_success_and_error() {
    let ok = fold_connector_upload(
        Ok(UploadFileResponse { provider_file_id: "prov-1".to_string() }),
        "authorizedotnet".to_string(),
        Some("prof1".to_string()),
        Some("mca1".to_string()),
    )
    .unwrap();
    assert_eq!(ok.provider_file_id, "prov-1");
    assert_eq!(ok.file_upload_provider, FileUploadProvider::Authorizedotnet);
    assert_eq!(ok.profile_id.as_deref(), Some("prof1"));
    assert_eq!(ok.merchant_connector_id.as_deref(), Some("mca1"));

    let err = fold_connector_upload(
        Err(ErrorResponse {
            code: "E1".to_string(),
            message: "bad".to_string(),
            reason: None,
            status_code: 500,
        }),
        "authorizedotnet".to_string(),
        None,
        None,
    )
    .unwrap_err();
    assert_eq!(
        err,
        ApiErrorResponse::ExternalConnectorError {
            code: "E1".to_string(),
            message: "bad".to_string(),
            connector: "authorizedotnet".to_string(),
            status_code: 500,
            reason: None,
        }
    );
}

#[test]
fn connector_retrieval_folds_bytes_and_error() {
    let bytes = fold_connector_retrieve(
        Ok(RetrieveFileResponse { file_data: vec![5, 6, 7] }),
        "authorizedotnet".to_string(),
    )
    .unwrap();
    assert_eq!(bytes, vec![5, 6, 7]);
    let err = fold_connector_retrieve(
        Err(ErrorResponse {
            code: "E2".to_string(),
            message: "gone".to_string(),
            reason: Some("expired".to_string()),
            status_code: 404,
        }),
        "authorizedotnet".to_string(),
    )
    .unwrap_err();
    assert!(matches!(err, ApiErrorResponse::ExternalConnectorError { status_code: 404, .. }));
}

#[test]
fn provider_names_resolve_for_connector_files_only() {
    assert_eq!(
        provider_connector_name(FileUploadProvider::Authorizedotnet).unwrap(),
        "authorizedotnet"
    );
    assert_eq!(
        provider_connector_name(FileUploadProvider::Router).unwrap_err(),
        ApiErrorResponse::InternalServerError
    );
}
