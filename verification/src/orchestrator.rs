//! The processing-step orchestrator: the single choke point every connector
//! call passes through.
//!
//! The step is split around its one side effect. `prepare_connector_step`
//! decides what, if anything, is to be sent: the driver performs the
//! transport call for a `Call` plan and hands the raw reply back;
//! `complete_connector_step` folds the outcome into the envelope. A flow
//! whose request construction yields nothing is not applicable: the
//! envelope comes back unchanged and no call is made.

use vstd::prelude::*;
use crate::connector::{
    context_preserved, error_response_matches, handle_response_post, wire_document,
    wire_request_of, Authorizedotnet, request_encodable,
};
use crate::decode::decoded_document;
use crate::errors::ConnectorError;
use crate::json::json_of;
use crate::transformers::payments_response_of;
use crate::types::{ConnectorsConfig, Method, OutboundRequest, Response, RouterData};

verus! {

/// The caller-supplied action: trigger the call now, or skip it because a
/// prior step already resolved the outcome.
#[derive(Clone, Copy, Debug, PartialEq, Eq, Structural)]
pub enum CallConnectorAction {
    Trigger,
    Avoid,
}

/// What one orchestration step is to do: nothing because the flow is not
/// applicable, nothing because the caller skipped it, or one transport
/// call.
#[derive(Debug)]
pub enum StepPlan {
    NotApplicable,
    Skipped,
    Call(OutboundRequest),
}

/// What the driver observed: no call was made, or a raw reply was received.
#[derive(Debug)]
pub enum StepOutcome {
    NoCall,
    Received(Response),
}

/// Whether a status code counts as a success for dispatching the reply.
pub open spec fn is_success_status(code: u16) -> bool {
    200 <= code < 300
}

/// Decides one orchestration step. A skipped step and an inapplicable flow
/// plan no call; otherwise the flow's transport-ready request is planned,
/// and a payload missing a required field is the encoding error.
pub fn prepare_connector_step(
    connector: &Authorizedotnet,
    data: &RouterData,
    connectors: &ConnectorsConfig,
    action: CallConnectorAction,
) -> (r: Result<StepPlan, ConnectorError>)
    ensures
        action is Avoid ==> (r matches Ok(p) && p is Skipped),
        action is Trigger && wire_request_of(data.request) is None ==> (r matches Ok(p)
            && p is NotApplicable),
        action is Trigger && wire_request_of(data.request) is Some && request_encodable(
            data.request,
        ) ==> (r matches Ok(p) && (p matches StepPlan::Call(out) && {
            &&& out.method == Method::Post
            &&& out.url@ == connectors.authorizedotnet.base_url@
            &&& out.headers@.len() == 2
            &&& out.headers@[0].0@ == "Content-Type"@ && out.headers@[0].1@
                == "application/json"@
            &&& out.headers@[1].0@ == "X-router"@ && out.headers@[1].1@ == "test"@
            &&& out.body matches Some(s) && json_of(s@) == Some(
                wire_document(wire_request_of(data.request)->0),
            )
        })),
        action is Trigger && !request_encodable(data.request) ==> (r matches Err(e)
            && e is RequestEncodingFailed),
{
    match action {
        CallConnectorAction::Avoid => Ok(StepPlan::Skipped),
        CallConnectorAction::Trigger => match connector.build_request(data, connectors) {
            Ok(Some(req)) => Ok(StepPlan::Call(req)),
            Ok(None) => Ok(StepPlan::NotApplicable),
            Err(e) => Err(e),
        },
    }
}

/// What completing a step must yield: with no call made, the input envelope
/// unchanged; with a success-status reply, the connector's response
/// handling; with a failure-status reply, the normalized error attached to
/// the envelope, everything else untouched.
pub open spec fn step_completion_post(
    data: RouterData,
    outcome: StepOutcome,
    r: Result<RouterData, ConnectorError>,
) -> bool {
    match outcome {
        StepOutcome::NoCall => r matches Ok(out) && out == data,
        StepOutcome::Received(res) => {
            if is_success_status(res.status_code) {
                handle_response_post(data, res.body(), res.status_code, r)
            } else {
                match decoded_document(res.body()) {
                    Some(doc) => match payments_response_of(doc) {
                        Some(t) => r matches Ok(out) && {
                            &&& context_preserved(data, out)
                            &&& out.status == data.status
                            &&& out.response matches Err(e) && error_response_matches(
                                t.errors,
                                res.status_code,
                                e,
                            )
                        },
                        None => r matches Err(e) && e is ResponseDeserializationFailed,
                    },
                    None => r matches Err(e) && e is ResponseDeserializationFailed,
                }
            }
        },
    }
}

/// Folds the driver's outcome into the envelope; the sole dispatcher
/// between the success and error decoding paths.
pub fn complete_connector_step(
    connector: &Authorizedotnet,
    data: RouterData,
    outcome: StepOutcome,
) -> (r: Result<RouterData, ConnectorError>)
    ensures
        step_completion_post(data, outcome, r),
{
    match outcome {
        StepOutcome::NoCall => Ok(data),
        StepOutcome::Received(res) => {
            if 200 <= res.status_code && res.status_code < 300 {
                connector.handle_response(data, &res)
            } else {
                match crate::connector::get_error_response(res) {
                    Ok(err) => Ok(RouterData { response: Err(err), ..data }),
                    Err(e) => Err(e),
                }
            }
        },
    }
}

} // verus!
