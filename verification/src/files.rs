//! The dispute-evidence file flows: validating an upload against the
//! dispute it belongs to, deciding per file whether bytes live in the local
//! store or at the connector, and folding upload and retrieval outcomes
//! back into plain results. The driver performs the storage lookups, the
//! store accesses and the connector call; every decision stands here.

use vstd::prelude::*;
use crate::errors::{ApiErrorResponse, ConnectorError};
use crate::types::{
    ErrorResponse, RequestPayload, RetrieveFileRequestData, RouterData, UploadFileRequestData,
};
use crate::strutil::str_eq;

verus! {

/// Where a file's bytes live: the local store, or a connector that hosts
/// files itself.
#[derive(Clone, Copy, Debug, PartialEq, Eq, Structural)]
pub enum FileUploadProvider {
    Router,
    Authorizedotnet,
}

/// Whether a retrieval caller needs the bytes or only the metadata;
/// connector fetches are costly round-trips, so many callers skip them.
#[derive(Clone, Copy, Debug, PartialEq, Eq, Structural)]
pub enum FileDataRequired {
    Required,
    NotRequired,
}

/// What a file may be uploaded for.
#[derive(Clone, Copy, Debug, PartialEq, Eq, Structural)]
pub enum FilePurpose {
    DisputeEvidence,
}

/// Stored metadata of one uploaded file.
#[derive(Debug)]
pub struct FileMetadata {
    pub file_upload_provider: Option<FileUploadProvider>,
    pub provider_file_id: Option<String>,
    pub available: bool,
    pub file_type: String,
    pub merchant_connector_id: Option<String>,
}

/// A file-upload request as the caller hands it in.
#[derive(Debug)]
pub struct CreateFileRequest {
    pub purpose: FilePurpose,
    pub dispute_id: Option<String>,
    pub file_size: u32,
    pub file_type: String,
    pub file: Vec<u8>,
}

/// The dispute record an upload is validated against.
#[derive(Debug)]
pub struct DisputeRecord {
    pub dispute_id: String,
    pub connector: String,
    pub merchant_connector_id: Option<String>,
    pub payment_id: String,
    pub attempt_id: String,
}

/// What a retrieval returns: bytes where they were fetched, the provider's
/// identifier, and the stored type.
#[derive(Debug)]
pub struct FileInfo {
    pub file_data: Option<Vec<u8>>,
    pub provider_file_id: Option<String>,
    pub file_type: Option<String>,
}

/// The purpose a multipart field's text denotes, if any.
pub open spec fn file_purpose_of(s: Seq<char>) -> Option<FilePurpose> {
    if s == "dispute_evidence"@ {
        Some(FilePurpose::DisputeEvidence)
    } else {
        None
    }
}

/// Reads a file purpose out of its field text; only dispute evidence is
/// known.
pub fn parse_file_purpose(s: &str) -> (r: Option<FilePurpose>)
    ensures
        r == file_purpose_of(s@),
{
    if str_eq(s, "dispute_evidence") {
        Some(FilePurpose::DisputeEvidence)
    } else {
        None
    }
}

/// What upload validation must yield: a missing dispute id, a dispute the
/// lookup did not find, and the connector's own verdict each map to their
/// error; only a passed connector check validates.
pub open spec fn validate_file_upload_post(
    dispute_id: Option<String>,
    dispute: Option<DisputeRecord>,
    connector_validation: Result<(), ConnectorError>,
    r: Result<(), ApiErrorResponse>,
) -> bool {
    match dispute_id {
        None => r matches Err(e) && e is MissingDisputeId,
        Some(id) => match dispute {
            None => r matches Err(e) && (e matches ApiErrorResponse::DisputeNotFound {
                dispute_id: d,
            } && d@ == id@),
            Some(_) => match connector_validation {
                Ok(()) => r is Ok,
                Err(ConnectorError::FileValidationFailed { reason }) => r matches Err(e) && (
                e matches ApiErrorResponse::FileValidationFailed { reason: q } && q@ == reason@),
                Err(_) => r matches Err(e) && e is InternalServerError,
            },
        },
    }
}

/// Validates a file upload against the purpose it was made for: the upload
/// must name a dispute, the dispute must exist, and the connector's own
/// file validation must pass.
pub fn validate_file_upload(
    request: &CreateFileRequest,
    dispute: Option<&DisputeRecord>,
    connector_validation: Result<(), ConnectorError>,
) -> (r: Result<(), ApiErrorResponse>)
    ensures
        validate_file_upload_post(request.dispute_id, match dispute {
            Some(d) => Some(*d),
            None => None,
        }, connector_validation, r),
{
    match &request.dispute_id {
        None => Err(ApiErrorResponse::MissingDisputeId),
        Some(id) => match dispute {
            None => Err(ApiErrorResponse::DisputeNotFound { dispute_id: id.clone() }),
            Some(_) => match connector_validation {
                Ok(()) => Ok(()),
                Err(ConnectorError::FileValidationFailed { reason }) => Err(
                    ApiErrorResponse::FileValidationFailed { reason },
                ),
                Err(_) => Err(ApiErrorResponse::InternalServerError),
            },
        },
    }
}

/// What deleting by file key must decide: only an available file whose
/// provider is the local store may be deleted there; any other provider is
/// unsupported, anything incomplete is unavailable.
pub open spec fn delete_file_plan_post(
    metadata: Option<FileMetadata>,
    r: Result<String, ApiErrorResponse>,
) -> bool {
    match metadata {
        None => r matches Err(e) && e is FileNotFound,
        Some(meta) => {
            if !(meta.file_upload_provider is Some && meta.provider_file_id is Some
                && meta.available) {
                r matches Err(e) && e is FileNotAvailable
            } else if meta.file_upload_provider == Some(FileUploadProvider::Router) {
                r matches Ok(id) && id@ == meta.provider_file_id->0@
            } else {
                r matches Err(e) && e is FileProviderNotSupported
            }
        },
    }
}

/// Decides a deletion: the local-store identifier to delete, or the error.
/// The driver deletes from the local store only on `Ok`.
pub fn delete_file_plan(metadata: Option<&FileMetadata>) -> (r: Result<String, ApiErrorResponse>)
    ensures
        delete_file_plan_post(
            match metadata {
                Some(m) => Some(*m),
                None => None,
            },
            r,
        ),
{
    let meta = match metadata {
        Some(m) => m,
        None => {
            return Err(ApiErrorResponse::FileNotFound);
        },
    };
    match (&meta.file_upload_provider, &meta.provider_file_id, meta.available) {
        (Some(provider), Some(provider_file_id), true) => match provider {
            FileUploadProvider::Router => Ok(provider_file_id.clone()),
            _ => Err(
                ApiErrorResponse::FileProviderNotSupported {
                    message: "Not Supported because provider is not Router".to_owned(),
                },
            ),
        },
        _ => Err(ApiErrorResponse::FileNotAvailable),
    }
}

/// What one retrieval decides to do: nothing (no file id), a local-store
/// read, a connector fetch, or metadata only.
#[derive(Debug)]
pub enum FileRetrievePlan {
    Empty,
    FetchLocal { provider_file_id: String, file_type: String },
    FetchConnector { provider_file_id: String, file_type: String },
    MetadataOnly { provider_file_id: String, file_type: String },
}

/// What planning a retrieval must decide. A file that is not available
/// fails with the file-not-available error whatever its provider; an
/// available local-store file is always read locally, never fetched from a
/// connector; an available connector file is fetched only where the caller
/// requires the bytes.
pub open spec fn file_retrieve_plan_post(
    file_id: Option<String>,
    metadata: Option<FileMetadata>,
    data_required: FileDataRequired,
    r: Result<FileRetrievePlan, ApiErrorResponse>,
) -> bool {
    match file_id {
        None => r matches Ok(p) && p is Empty,
        Some(_) => match metadata {
            None => r matches Err(e) && e is FileNotFound,
            Some(meta) => {
                if !(meta.file_upload_provider is Some && meta.provider_file_id is Some
                    && meta.available) {
                    r matches Err(e) && e is FileNotAvailable
                } else if meta.file_upload_provider == Some(FileUploadProvider::Router) {
                    r matches Ok(p) && (p matches FileRetrievePlan::FetchLocal {
                        provider_file_id,
                        file_type,
                    } && provider_file_id@ == meta.provider_file_id->0@ && file_type@
                        == meta.file_type@)
                } else if data_required == FileDataRequired::Required {
                    r matches Ok(p) && (p matches FileRetrievePlan::FetchConnector {
                        provider_file_id,
                        file_type,
                    } && provider_file_id@ == meta.provider_file_id->0@ && file_type@
                        == meta.file_type@)
                } else {
                    r matches Ok(p) && (p matches FileRetrievePlan::MetadataOnly {
                        provider_file_id,
                        file_type,
                    } && provider_file_id@ == meta.provider_file_id->0@ && file_type@
                        == meta.file_type@)
                }
            },
        },
    }
}

/// Plans one retrieval by file id, stored metadata and the caller's
/// data-required flag.
pub fn file_retrieve_plan(
    file_id: Option<&String>,
    metadata: Option<&FileMetadata>,
    data_required: FileDataRequired,
) -> (r: Result<FileRetrievePlan, ApiErrorResponse>)
    ensures
        file_retrieve_plan_post(
            match file_id {
                Some(f) => Some(*f),
                None => None,
            },
            match metadata {
                Some(m) => Some(*m),
                None => None,
            },
            data_required,
            r,
        ),
{
    if file_id.is_none() {
        return Ok(FileRetrievePlan::Empty);
    }
    let meta = match metadata {
        Some(m) => m,
        None => {
            return Err(ApiErrorResponse::FileNotFound);
        },
    };
    match (&meta.file_upload_provider, &meta.provider_file_id, meta.available) {
        (Some(provider), Some(provider_file_id), true) => match provider {
            FileUploadProvider::Router => Ok(
                FileRetrievePlan::FetchLocal {
                    provider_file_id: provider_file_id.clone(),
                    file_type: meta.file_type.clone(),
                },
            ),
            _ => match data_required {
                FileDataRequired::Required => Ok(
                    FileRetrievePlan::FetchConnector {
                        provider_file_id: provider_file_id.clone(),
                        file_type: meta.file_type.clone(),
                    },
                ),
                FileDataRequired::NotRequired => Ok(
                    FileRetrievePlan::MetadataOnly {
                        provider_file_id: provider_file_id.clone(),
                        file_type: meta.file_type.clone(),
                    },
                ),
            },
        },
        _ => Err(ApiErrorResponse::FileNotAvailable),
    }
}

/// Assembles the retrieval result from the plan and the bytes the driver
/// fetched (from the local store or the connector; `None` where the plan
/// asked for none).
pub fn file_info_from_plan(plan: FileRetrievePlan, fetched: Option<Vec<u8>>) -> (r: FileInfo)
    ensures
        plan is Empty ==> r.file_data is None && r.provider_file_id is None
            && r.file_type is None,
        (plan matches FileRetrievePlan::FetchLocal { provider_file_id, file_type } ==> {
            &&& r.file_data == fetched
            &&& r.provider_file_id matches Some(p) && p@ == provider_file_id@
            &&& r.file_type matches Some(t) && t@ == file_type@
        }),
        (plan matches FileRetrievePlan::FetchConnector { provider_file_id, file_type } ==> {
            &&& r.file_data == fetched
            &&& r.provider_file_id matches Some(p) && p@ == provider_file_id@
            &&& r.file_type matches Some(t) && t@ == file_type@
        }),
        (plan matches FileRetrievePlan::MetadataOnly { provider_file_id, file_type } ==> {
            &&& r.file_data is None
            &&& r.provider_file_id matches Some(p) && p@ == provider_file_id@
            &&& r.file_type matches Some(t) && t@ == file_type@
        }),
{
    match plan {
        FileRetrievePlan::Empty => FileInfo {
            file_data: None,
            provider_file_id: None,
            file_type: None,
        },
        FileRetrievePlan::FetchLocal { provider_file_id, file_type } => FileInfo {
            file_data: fetched,
            provider_file_id: Some(provider_file_id),
            file_type: Some(file_type),
        },
        FileRetrievePlan::FetchConnector { provider_file_id, file_type } => FileInfo {
            file_data: fetched,
            provider_file_id: Some(provider_file_id),
            file_type: Some(file_type),
        },
        FileRetrievePlan::MetadataOnly { provider_file_id, file_type } => FileInfo {
            file_data: None,
            provider_file_id: Some(provider_file_id),
            file_type: Some(file_type),
        },
    }
}

/// The caller-facing error a connector failure is converted into at a flow
/// boundary: connector identity and the original code and message attached.
pub fn external_connector_error(err: ErrorResponse, connector: String) -> (r: ApiErrorResponse)
    ensures
        r matches ApiErrorResponse::ExternalConnectorError {
            code,
            message,
            connector: c,
            status_code,
            reason,
        } && {
            &&& code@ == err.code@
            &&& message@ == err.message@
            &&& c@ == connector@
            &&& status_code == err.status_code
            &&& reason == err.reason
        },
{
    ApiErrorResponse::ExternalConnectorError {
        code: err.code,
        message: err.message,
        connector,
        status_code: err.status_code,
        reason: err.reason,
    }
}

/// What one upload decides to do: push the file to the connector that hosts
/// files, or store the bytes locally under the generated key.
#[derive(Debug)]
pub enum FileUploadPlan {
    ConnectorUpload { connector: String },
    LocalStore { file_key: String },
}

/// What planning an upload must decide: the upload must name a dispute the
/// lookup found; a connector that declares file-storage support receives
/// the file, any other file goes to the local store under the generated
/// key.
pub open spec fn upload_file_plan_post(
    dispute_id: Option<String>,
    dispute: Option<DisputeRecord>,
    supports_file_storage: bool,
    file_key: String,
    r: Result<FileUploadPlan, ApiErrorResponse>,
) -> bool {
    match dispute_id {
        None => r matches Err(e) && e is MissingDisputeId,
        Some(id) => match dispute {
            None => r matches Err(e) && (e matches ApiErrorResponse::DisputeNotFound {
                dispute_id: d,
            } && d@ == id@),
            Some(dis) => {
                if supports_file_storage {
                    r matches Ok(p) && (p matches FileUploadPlan::ConnectorUpload { connector }
                        && connector@ == dis.connector@)
                } else {
                    r matches Ok(p) && (p matches FileUploadPlan::LocalStore { file_key: k } && k@
                        == file_key@)
                }
            },
        },
    }
}

/// Plans one dispute-evidence upload.
pub fn upload_file_plan(
    request: &CreateFileRequest,
    dispute: Option<&DisputeRecord>,
    supports_file_storage: bool,
    file_key: String,
) -> (r: Result<FileUploadPlan, ApiErrorResponse>)
    ensures
        upload_file_plan_post(request.dispute_id, match dispute {
            Some(d) => Some(*d),
            None => None,
        }, supports_file_storage, file_key, r),
{
    let id = match &request.dispute_id {
        Some(i) => i,
        None => {
            return Err(ApiErrorResponse::MissingDisputeId);
        },
    };
    let dis = match dispute {
        Some(d) => d,
        None => {
            return Err(ApiErrorResponse::DisputeNotFound { dispute_id: id.clone() });
        },
    };
    if supports_file_storage {
        Ok(FileUploadPlan::ConnectorUpload { connector: dis.connector.clone() })
    } else {
        Ok(FileUploadPlan::LocalStore { file_key })
    }
}

/// The plain result an upload flow returns: the provider-side file
/// identifier, the provider it lives at, and the profile and connector
/// account the upload ran under.
#[derive(Debug)]
pub struct UploadOutcome {
    pub provider_file_id: String,
    pub file_upload_provider: FileUploadProvider,
    pub profile_id: Option<String>,
    pub merchant_connector_id: Option<String>,
}

/// Folds a connector upload's envelope back into the plain outcome: a
/// successful upload yields the connector-assigned identifier, a failure is
/// converted into the caller-facing connector error.
pub fn fold_connector_upload(
    response: Result<crate::types::UploadFileResponse, ErrorResponse>,
    connector: String,
    profile_id: Option<String>,
    merchant_connector_id: Option<String>,
) -> (r: Result<UploadOutcome, ApiErrorResponse>)
    ensures
        match response {
            Ok(u) => r matches Ok(o) && {
                &&& o.provider_file_id@ == u.provider_file_id@
                &&& o.file_upload_provider == FileUploadProvider::Authorizedotnet
                &&& o.profile_id == profile_id
                &&& o.merchant_connector_id == merchant_connector_id
            },
            Err(e) => r matches Err(a) && (a matches ApiErrorResponse::ExternalConnectorError {
                code,
                message,
                connector: c,
                status_code,
                reason,
            } && {
                &&& code@ == e.code@
                &&& message@ == e.message@
                &&& c@ == connector@
                &&& status_code == e.status_code
                &&& reason == e.reason
            }),
        },
{
    match response {
        Ok(u) => Ok(
            UploadOutcome {
                provider_file_id: u.provider_file_id,
                file_upload_provider: FileUploadProvider::Authorizedotnet,
                profile_id,
                merchant_connector_id,
            },
        ),
        Err(e) => Err(external_connector_error(e, connector)),
    }
}

/// The plain outcome of a local-store upload: the file lives in the local
/// store under the generated key, tied to no profile or connector account.
pub fn local_store_upload_outcome(file_key: String) -> (r: UploadOutcome)
    ensures
        r.provider_file_id@ == file_key@,
        r.file_upload_provider == FileUploadProvider::Router,
        r.profile_id is None,
        r.merchant_connector_id is None,
{
    UploadOutcome {
        provider_file_id: file_key,
        file_upload_provider: FileUploadProvider::Router,
        profile_id: None,
        merchant_connector_id: None,
    }
}

/// The connector name a file provider stands for; the local store stands
/// for none.
pub fn provider_connector_name(p: FileUploadProvider) -> (r: Result<
    &'static str,
    ApiErrorResponse,
>)
    ensures
        p == FileUploadProvider::Authorizedotnet ==> (r matches Ok(s) && s@
            == "authorizedotnet"@),
        p == FileUploadProvider::Router ==> (r matches Err(e) && e is InternalServerError),
{
    match p {
        FileUploadProvider::Authorizedotnet => Ok("authorizedotnet"),
        FileUploadProvider::Router => Err(ApiErrorResponse::InternalServerError),
    }
}

/// The envelope a connector file upload runs under.
pub fn upload_file_router_data(
    merchant_id: String,
    connector: String,
    attempt_id: String,
    file_key: String,
    file: Vec<u8>,
    file_type: String,
) -> (r: RouterData)
    ensures
        r.merchant_id@ == merchant_id@,
        r.connector@ == connector@,
        r.attempt_id@ == attempt_id@,
        r.request matches RequestPayload::UploadFile(d) && {
            &&& d.file_key@ == file_key@
            &&& d.file@ == file@
            &&& d.file_type@ == file_type@
        },
{
    RouterData {
        merchant_id,
        connector,
        attempt_id,
        status: crate::types::AttemptStatus::Pending,
        request: RequestPayload::UploadFile(
            UploadFileRequestData { file_key, file, file_type },
        ),
        response: Err(
            ErrorResponse {
                code: "No error code".to_owned(),
                message: "No error message".to_owned(),
                reason: None,
                status_code: 0,
            },
        ),
    }
}

/// The envelope a connector file retrieval runs under.
pub fn retrieve_file_router_data(
    merchant_id: String,
    connector: String,
    provider_file_id: String,
) -> (r: RouterData)
    ensures
        r.merchant_id@ == merchant_id@,
        r.connector@ == connector@,
        r.request matches RequestPayload::RetrieveFile(d) && d.provider_file_id@
            == provider_file_id@,
{
    RouterData {
        merchant_id,
        connector,
        attempt_id: String::new(),
        status: crate::types::AttemptStatus::Pending,
        request: RequestPayload::RetrieveFile(RetrieveFileRequestData { provider_file_id }),
        response: Err(
            ErrorResponse {
                code: "No error code".to_owned(),
                message: "No error message".to_owned(),
                reason: None,
                status_code: 0,
            },
        ),
    }
}

/// Folds a connector retrieval's envelope back into the plain bytes; a
/// failure is converted into the caller-facing connector error.
pub fn fold_connector_retrieve(
    response: Result<crate::types::RetrieveFileResponse, ErrorResponse>,
    connector: String,
) -> (r: Result<Vec<u8>, ApiErrorResponse>)
    ensures
        match response {
            Ok(f) => r matches Ok(b) && b@ == f.file_data@,
            Err(e) => r matches Err(a) && (a matches ApiErrorResponse::ExternalConnectorError {
                code,
                message,
                connector: c,
                status_code,
                reason,
            } && {
                &&& code@ == e.code@
                &&& message@ == e.message@
                &&& c@ == connector@
                &&& status_code == e.status_code
                &&& reason == e.reason
            }),
        },
{
    match response {
        Ok(f) => Ok(f.file_data),
        Err(e) => Err(external_connector_error(e, connector)),
    }
}

/// Whether this connector declares support for hosting files itself; this
/// one does not, so dispute evidence goes to the local store.
pub fn supports_file_storage_module(_c: &crate::connector::Authorizedotnet) -> (r: bool)
    ensures
        r == false,
{
    false
}

} // verus!
