//! The pre-authentication (3-D Secure) flow: creating the authentication
//! record, building the pre-authentication envelope, and folding the
//! connector's result into payment-attempt state with version-dependent
//! branching. The driver persists the record, runs the orchestrator, and
//! writes the fold's outputs back through the storage interface.

use vstd::prelude::*;
use crate::errors::ApiErrorResponse;
use crate::types::{
    AttemptStatus, AuthenticationResponseData, PreAuthNRequestData, RequestPayload,
    ResponsePayload, RouterData, ThreeDsVersion,
};
use vstd::string::StringExecFns;

verus! {

/// Status of an authentication record as this core writes it.
#[derive(Clone, Copy, Debug, PartialEq, Eq, Structural)]
pub enum AuthenticationStatus {
    Started,
    Pending,
    Success,
    Failed,
}

/// Lifecycle of an authentication record; this core only ever creates
/// unused records.
#[derive(Clone, Copy, Debug, PartialEq, Eq, Structural)]
pub enum AuthenticationLifecycleStatus {
    Unused,
    Used,
    Expired,
}

/// A new authentication record, as handed to the storage interface.
#[derive(Debug)]
pub struct AuthenticationNew {
    pub authentication_id: String,
    pub merchant_id: String,
    pub connector: String,
    pub connector_authentication_id: Option<String>,
    pub authentication_data: Option<String>,
    pub payment_method_id: String,
    pub authentication_status: AuthenticationStatus,
    pub lifecycle_status: AuthenticationLifecycleStatus,
}

/// The update the pre-authentication fold writes back to the payment
/// attempt.
#[derive(Debug)]
pub struct PaymentAttemptUpdate {
    pub status: AttemptStatus,
    pub external_3ds_authentication_requested: Option<bool>,
    pub authentication_provider: Option<String>,
    pub authentication_id: Option<String>,
    pub updated_by: String,
}

/// The attempt status an authentication status maps to.
pub open spec fn attempt_status_of_authentication(s: AuthenticationStatus) -> AttemptStatus {
    match s {
        AuthenticationStatus::Started => AttemptStatus::AuthenticationPending,
        AuthenticationStatus::Pending => AttemptStatus::AuthenticationPending,
        AuthenticationStatus::Success => AttemptStatus::AuthenticationSuccessful,
        AuthenticationStatus::Failed => AttemptStatus::AuthenticationFailed,
    }
}

pub fn attempt_status_of_authentication_exec(s: AuthenticationStatus) -> (r: AttemptStatus)
    ensures
        r == attempt_status_of_authentication(s),
{
    match s {
        AuthenticationStatus::Started => AttemptStatus::AuthenticationPending,
        AuthenticationStatus::Pending => AttemptStatus::AuthenticationPending,
        AuthenticationStatus::Success => AttemptStatus::AuthenticationSuccessful,
        AuthenticationStatus::Failed => AttemptStatus::AuthenticationFailed,
    }
}

/// Builds the authentication identifier from the generated part: a fixed
/// prefix, then the generated part.
pub fn authentication_id_with_prefix(generated: &str) -> (r: String)
    ensures
        r@ == "authn_"@ + generated@,
{
    let mut id = String::from_str("authn_");
    id.append(generated);
    id
}

/// A new authentication record in its initial state: started and unused,
/// nothing connector-assigned yet.
pub fn create_new_authentication(authentication_id: String, merchant_id: String) -> (r:
    AuthenticationNew)
    ensures
        r.authentication_id@ == authentication_id@,
        r.merchant_id@ == merchant_id@,
        r.connector@.len() == 0,
        r.connector_authentication_id is None,
        r.authentication_data is None,
        r.payment_method_id@.len() == 0,
        r.authentication_status == AuthenticationStatus::Started,
        r.lifecycle_status == AuthenticationLifecycleStatus::Unused,
{
    AuthenticationNew {
        authentication_id,
        merchant_id,
        connector: String::new(),
        connector_authentication_id: None,
        authentication_data: None,
        payment_method_id: String::new(),
        authentication_status: AuthenticationStatus::Started,
        lifecycle_status: AuthenticationLifecycleStatus::Unused,
    }
}

/// The duplicate-record error raised when a record under the same
/// authentication identifier already exists.
pub fn duplicate_authentication_error(authentication_id: &str) -> (r: ApiErrorResponse)
    ensures
        r matches ApiErrorResponse::GenericDuplicateError { message } && message@
            == "Authentication with authentication_id "@ + authentication_id@
            + " already exists"@,
{
    let mut message = String::from_str("Authentication with authentication_id ");
    message.append(authentication_id);
    message.append(" already exists");
    ApiErrorResponse::GenericDuplicateError { message }
}

/// The pre-authentication envelope: the card number to authenticate, and a
/// placeholder response the connector call overwrites.
pub fn pre_auth_router_data(
    card_number: String,
    merchant_id: String,
    connector: String,
    attempt_id: String,
) -> (r: RouterData)
    ensures
        r.merchant_id@ == merchant_id@,
        r.connector@ == connector@,
        r.attempt_id@ == attempt_id@,
        r.status == AttemptStatus::Pending,
        r.request matches RequestPayload::PreAuthentication(d) && d.card_holder_account_number@
            == card_number@,
        r.response matches Ok(ResponsePayload::Authentication(
            AuthenticationResponseData::PreAuthNResponse {
                threeds_server_transaction_id,
                maximum_supported_3ds_version,
                connector_authentication_id,
                three_ds_method_data,
                three_ds_method_url,
                message_version,
            },
        )) && {
            &&& threeds_server_transaction_id@.len() == 0
            &&& maximum_supported_3ds_version == (ThreeDsVersion { major: 0, minor: 0, patch: 0 })
            &&& connector_authentication_id@.len() == 0
            &&& three_ds_method_data@.len() == 0
            &&& three_ds_method_url is None
            &&& message_version@.len() == 0
        },
{
    RouterData {
        merchant_id,
        connector,
        attempt_id,
        status: AttemptStatus::Pending,
        request: RequestPayload::PreAuthentication(
            PreAuthNRequestData { card_holder_account_number: card_number },
        ),
        response: Ok(
            ResponsePayload::Authentication(
                AuthenticationResponseData::PreAuthNResponse {
                    threeds_server_transaction_id: String::new(),
                    maximum_supported_3ds_version: ThreeDsVersion { major: 0, minor: 0, patch: 0 },
                    connector_authentication_id: String::new(),
                    three_ds_method_data: String::new(),
                    three_ds_method_url: None,
                    message_version: String::new(),
                },
            ),
        ),
    }
}

/// Folds the returned maximum-supported protocol version into the
/// confirmation flow: a major component of two or higher requests external
/// authentication and suspends the in-flight confirmation; below two,
/// confirmation proceeds as it was and no external authentication is
/// requested.
pub fn fold_pre_auth_result(
    version: ThreeDsVersion,
    should_continue_confirm_transaction: &mut bool,
) -> (external_3ds_authentication_requested: bool)
    ensures
        version.major >= 2 ==> !*final(should_continue_confirm_transaction)
            && external_3ds_authentication_requested,
        version.major < 2 ==> *final(should_continue_confirm_transaction) == *old(
            should_continue_confirm_transaction,
        ) && !external_3ds_authentication_requested,
{
    if version.major >= 2 {
        *should_continue_confirm_transaction = false;
        true
    } else {
        false
    }
}

/// The attempt update the fold step persists: status derived from the
/// authentication record, provider and identifier attached.
pub fn build_authentication_attempt_update(
    authentication_status: AuthenticationStatus,
    external_3ds_authentication_requested: bool,
    authentication_provider: String,
    authentication_id: String,
    updated_by: String,
) -> (r: PaymentAttemptUpdate)
    ensures
        r.status == attempt_status_of_authentication(authentication_status),
        r.external_3ds_authentication_requested == Some(external_3ds_authentication_requested),
        r.authentication_provider matches Some(p) && p@ == authentication_provider@,
        r.authentication_id matches Some(i) && i@ == authentication_id@,
        r.updated_by@ == updated_by@,
{
    PaymentAttemptUpdate {
        status: attempt_status_of_authentication_exec(authentication_status),
        external_3ds_authentication_requested: Some(external_3ds_authentication_requested),
        authentication_provider: Some(authentication_provider),
        authentication_id: Some(authentication_id),
        updated_by,
    }
}

/// The payment-method-level authentication flow performs record creation
/// and the connector call like the payment flow, but its fold step is
/// deliberately unfinished: it reports the unimplemented path loudly
/// instead of silently succeeding.
pub fn fold_payment_method_pre_auth() -> (r: Result<(), ApiErrorResponse>)
    ensures
        r matches Err(e) && e matches ApiErrorResponse::NotImplemented { message } && message@
            == "payment method authentication fold"@,
{
    Err(
        ApiErrorResponse::NotImplemented {
            message: "payment method authentication fold".to_owned(),
        },
    )
}

} // verus!
