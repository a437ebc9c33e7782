//! Inbound webhook verification: signature algorithm selection, signature
//! extraction from the signature header, the signed message, the
//! merchant-specific signing secret, and business-event classification.

use vstd::prelude::*;
use crate::connector::Authorizedotnet;
use crate::decode::{decode_body, decoded_document};
use crate::errors::ConnectorError;
use crate::json::{jas_str, jget, jmodel, JVal};
use crate::strutil::{ascii_caseless_eq, str_eq, str_eq_ignore_ascii_case};
use crate::transformers::{
    encode_sync_response, req_str_field, sync_response_document, AuthorizedotnetSyncResponse,
    SyncStatus,
};
use crate::types::IncomingWebhookEvent;
use vstd::slice::{slice_subrange, slice_to_vec};
use vstd::string::StringExecFns;
use vstd::string::StrSliceExecFns;

verus! {

/// The signature algorithm a connector verifies webhooks with; fixed per
/// connector.
#[derive(Clone, Copy, Debug, PartialEq, Eq, Structural)]
pub enum SignatureAlgorithm {
    HmacSha512,
}

/// The value of the first header with a name, as transport handed it over;
/// header names compare ASCII-case-insensitively, as HTTP asks.
pub open spec fn header_value(h: Seq<(String, Vec<u8>)>, name: Seq<char>) -> Option<Seq<u8>>
    decreases h.len(),
{
    if h.len() == 0 {
        None
    } else if ascii_caseless_eq(h[0].0@, name) {
        Some(h[0].1@)
    } else {
        header_value(h.skip(1), name)
    }
}

/// Whether every byte is a visible ASCII character, as a header value must
/// be to be read as text.
pub open spec fn ascii_printable(b: Seq<u8>) -> bool {
    forall|i: int| 0 <= i < b.len() ==> 0x20u8 <= #[trigger] b[i] <= 0x7eu8
}

/// What extracting the signature from a header value must yield: the bytes
/// after the first `=` separator; a value without the separator fails
/// source verification, an unreadable value counts as no signature.
pub open spec fn signature_of_value(hv: Seq<u8>, r: Result<Vec<u8>, ConnectorError>) -> bool {
    if !ascii_printable(hv) {
        r matches Err(e) && e is WebhookSignatureNotFound
    } else if forall|k: int| 0 <= k < hv.len() ==> #[trigger] hv[k] != 0x3du8 {
        r matches Err(e) && e is WebhookSourceVerificationFailed
    } else {
        r matches Ok(s) && exists|p: int|
            {
                &&& 0 <= p < hv.len()
                &&& hv[p] == 0x3du8
                &&& (forall|k: int| 0 <= k < p ==> #[trigger] hv[k] != 0x3du8)
                &&& s@ == hv.skip(p + 1)
            }
    }
}

/// What signature extraction must yield over the whole header map: a
/// missing signature header counts as no signature.
pub open spec fn webhook_signature_post(
    h: Seq<(String, Vec<u8>)>,
    r: Result<Vec<u8>, ConnectorError>,
) -> bool {
    match header_value(h, "X-ANET-Signature"@) {
        None => r matches Err(e) && e is WebhookSignatureNotFound,
        Some(hv) => signature_of_value(hv, r),
    }
}

fn extract_signature_value(hv: &[u8]) -> (r: Result<Vec<u8>, ConnectorError>)
    ensures
        signature_of_value(hv@, r),
{
    let n = hv.len();
    let mut i: usize = 0;
    while i < n
        invariant
            i <= n,
            n == hv@.len(),
            forall|k: int| 0 <= k < i ==> 0x20u8 <= #[trigger] hv@[k] <= 0x7eu8,
        decreases n - i,
    {
        let b = *vstd::slice::slice_index_get(hv, i);
        if b < 0x20u8 || b > 0x7eu8 {
            return Err(ConnectorError::WebhookSignatureNotFound);
        }
        i += 1;
    }
    let mut p: usize = 0;
    while p < n
        invariant
            p <= n,
            n == hv@.len(),
            forall|k: int| 0 <= k < p ==> #[trigger] hv@[k] != 0x3du8,
            ascii_printable(hv@),
        decreases n - p,
    {
        let b = *vstd::slice::slice_index_get(hv, p);
        if b == 0x3du8 {
            let tail = slice_subrange(hv, p + 1, n);
            let out = slice_to_vec(tail);
            return Ok(out);
        }
        p += 1;
    }
    Err(ConnectorError::WebhookSourceVerificationFailed)
}

/// The event-type names the connector reports a completed payment
/// authorization or capture under, and the sync status each one stands for.
pub open spec fn event_sync_status(s: Seq<char>) -> Option<SyncStatus> {
    if s == "net.authorize.payment.authorization.created"@ {
        Some(SyncStatus::AuthorizedPendingCapture)
    } else if s == "net.authorize.payment.priorAuthCapture.created"@ {
        Some(SyncStatus::CapturedPendingSettlement)
    } else if s == "net.authorize.payment.authcapture.created"@ {
        Some(SyncStatus::CapturedPendingSettlement)
    } else {
        None
    }
}

/// The business event category an event-type name classifies into; every
/// known name reports a succeeded payment, anything else is unknown.
pub open spec fn classify_event(s: Seq<char>) -> Option<IncomingWebhookEvent> {
    if event_sync_status(s) is Some {
        Some(IncomingWebhookEvent::PaymentIntentSuccess)
    } else {
        None
    }
}

fn event_sync_status_exec(s: &str) -> (r: Option<SyncStatus>)
    ensures
        r == event_sync_status(s@),
{
    if str_eq(s, "net.authorize.payment.authorization.created") {
        Some(SyncStatus::AuthorizedPendingCapture)
    } else if str_eq(s, "net.authorize.payment.priorAuthCapture.created") {
        Some(SyncStatus::CapturedPendingSettlement)
    } else if str_eq(s, "net.authorize.payment.authcapture.created") {
        Some(SyncStatus::CapturedPendingSettlement)
    } else {
        None
    }
}

/// The event-type name a webhook body carries.
pub open spec fn webhook_event_type_of(doc: JVal) -> Option<Seq<char>> {
    match doc {
        JVal::Obj(m) => req_str_field(m, "eventType"@),
        _ => None,
    }
}

/// The object identifier a webhook body's payload carries.
pub open spec fn webhook_reference_id_of(doc: JVal) -> Option<Seq<char>> {
    match doc {
        JVal::Obj(m) => {
            if m.dom().contains("payload"@) {
                match m["payload"@] {
                    JVal::Obj(mp) => req_str_field(mp, "id"@),
                    _ => None,
                }
            } else {
                None
            }
        },
        _ => None,
    }
}

/// The normalized sync view of a webhook body: its payload's identifier and
/// the status its event-type name stands for.
pub open spec fn webhook_resource_sync_of(doc: JVal) -> Option<(Seq<char>, SyncStatus)> {
    match (webhook_reference_id_of(doc), webhook_event_type_of(doc)) {
        (Some(id), Some(ev)) => match event_sync_status(ev) {
            Some(st) => Some((id, st)),
            None => None,
        },
        _ => None,
    }
}

impl Authorizedotnet {
    /// Selects the signature algorithm for this connector: a keyed hash,
    /// fixed per connector.
    pub fn get_webhook_source_verification_algorithm(&self) -> (r: SignatureAlgorithm)
        ensures
            r == SignatureAlgorithm::HmacSha512,
    {
        SignatureAlgorithm::HmacSha512
    }

    /// Extracts the signature value from the connector's signature header,
    /// formatted `<scheme>=<value>`: the bytes after the separator. A
    /// missing or unreadable header and a value without the separator are
    /// distinct, reported errors.
    pub fn get_webhook_source_verification_signature(&self, headers: &Vec<(String, Vec<u8>)>) -> (r:
        Result<Vec<u8>, ConnectorError>)
        ensures
            webhook_signature_post(headers@, r),
    {
        let n = headers.len();
        let mut i: usize = 0;
        proof {
            assert(headers@.skip(0) =~= headers@);
        }
        while i < n
            invariant
                i <= n,
                n == headers@.len(),
                header_value(headers@, "X-ANET-Signature"@) == header_value(
                    headers@.skip(i as int),
                    "X-ANET-Signature"@,
                ),
            decreases n - i,
        {
            proof {
                assert(headers@.skip(i as int)[0] == headers@[i as int]);
                assert(headers@.skip(i as int).skip(1) =~= headers@.skip(i as int + 1));
            }
            if str_eq_ignore_ascii_case(headers[i].0.as_str(), "X-ANET-Signature") {
                return extract_signature_value(headers[i].1.as_slice());
            }
            i += 1;
        }
        Err(ConnectorError::WebhookSignatureNotFound)
    }

    /// The exact byte sequence the signature was computed over: the raw
    /// webhook body itself.
    pub fn get_webhook_source_verification_message(&self, body: &[u8]) -> (r: Vec<u8>)
        ensures
            r@ == body@,
    {
        slice_to_vec(body)
    }

    /// The storage key the merchant-specific signing secret lives under,
    /// namespaced by connector and merchant.
    pub fn webhook_secret_config_key(&self, merchant_id: &str) -> (r: String)
        ensures
            r@ == "whsec_verification_"@ + "authorizedotnet"@ + "_"@ + merchant_id@,
    {
        let mut key = String::from_str("whsec_verification_");
        key.append(self.id());
        key.append("_");
        key.append(merchant_id);
        key
    }

    /// Reads the signing secret out of the configuration entry the storage
    /// lookup found; an absent entry is the reported secret-not-found
    /// error.
    pub fn get_webhook_source_verification_merchant_secret(&self, config: Option<String>) -> (r:
        Result<Vec<u8>, ConnectorError>)
        ensures
            match config {
                None => r matches Err(e) && e is WebhookVerificationSecretNotFound,
                Some(s) => r matches Ok(b) && b@ == vstd::utf8::encode_utf8(s@),
            },
    {
        match config {
            None => Err(ConnectorError::WebhookVerificationSecretNotFound),
            Some(s) => Ok(s.as_str().as_bytes_vec()),
        }
    }

    /// Reads the object reference identifier out of a webhook body; a body
    /// without it is the reported reference-id error.
    pub fn get_webhook_object_reference_id(&self, body: &[u8]) -> (r: Result<
        String,
        ConnectorError,
    >)
        ensures
            match decoded_document(body@) {
                Some(doc) => match webhook_reference_id_of(doc) {
                    Some(id) => r matches Ok(s) && s@ == id,
                    None => r matches Err(e) && e is WebhookReferenceIdNotFound,
                },
                None => r matches Err(e) && e is WebhookReferenceIdNotFound,
            },
    {
        let doc = match decode_body(body) {
            Some(v) => v,
            None => {
                return Err(ConnectorError::WebhookReferenceIdNotFound);
            },
        };
        let payload = match jget(&doc, "payload") {
            Some(p) => p,
            None => {
                return Err(ConnectorError::WebhookReferenceIdNotFound);
            },
        };
        let id_val = match jget(payload, "id") {
            Some(x) => x,
            None => {
                return Err(ConnectorError::WebhookReferenceIdNotFound);
            },
        };
        match jas_str(id_val) {
            Some(s) => Ok(s),
            None => Err(ConnectorError::WebhookReferenceIdNotFound),
        }
    }

    /// Classifies a webhook body's event-type name into a business event
    /// category; an unrecognized name is a reported error, never a default
    /// category.
    pub fn get_webhook_event_type(&self, body: &[u8]) -> (r: Result<
        IncomingWebhookEvent,
        ConnectorError,
    >)
        ensures
            match decoded_document(body@) {
                Some(doc) => match webhook_event_type_of(doc) {
                    Some(ev) => match classify_event(ev) {
                        Some(c) => r matches Ok(x) && x == c,
                        None => r matches Err(e) && e is WebhookEventTypeNotFound,
                    },
                    None => r matches Err(e) && e is WebhookReferenceIdNotFound,
                },
                None => r matches Err(e) && e is WebhookReferenceIdNotFound,
            },
    {
        let doc = match decode_body(body) {
            Some(v) => v,
            None => {
                return Err(ConnectorError::WebhookReferenceIdNotFound);
            },
        };
        let ev_val = match jget(&doc, "eventType") {
            Some(x) => x,
            None => {
                return Err(ConnectorError::WebhookReferenceIdNotFound);
            },
        };
        let ev = match jas_str(ev_val) {
            Some(s) => s,
            None => {
                return Err(ConnectorError::WebhookReferenceIdNotFound);
            },
        };
        match event_sync_status_exec(ev.as_str()) {
            Some(_) => Ok(IncomingWebhookEvent::PaymentIntentSuccess),
            None => Err(ConnectorError::WebhookEventTypeNotFound),
        }
    }

    /// Re-parses a webhook body into the connector's resource shape,
    /// converts it into the normalized sync-response shape the status-check
    /// flow uses, and serializes that to a generic structured value.
    pub fn get_webhook_resource_object(&self, body: &[u8]) -> (r: Result<
        serde_json::Value,
        ConnectorError,
    >)
        ensures
            match decoded_document(body@) {
                Some(doc) => match webhook_resource_sync_of(doc) {
                    Some((tid, st)) => r matches Ok(v) && jmodel(v) == sync_response_document(
                        tid,
                        st,
                    ),
                    None => r matches Err(e) && e is WebhookReferenceIdNotFound,
                },
                None => r matches Err(e) && e is WebhookReferenceIdNotFound,
            },
    {
        let doc = match decode_body(body) {
            Some(v) => v,
            None => {
                return Err(ConnectorError::WebhookReferenceIdNotFound);
            },
        };
        let payload = match jget(&doc, "payload") {
            Some(p) => p,
            None => {
                return Err(ConnectorError::WebhookReferenceIdNotFound);
            },
        };
        let id_val = match jget(payload, "id") {
            Some(x) => x,
            None => {
                return Err(ConnectorError::WebhookReferenceIdNotFound);
            },
        };
        let id = match jas_str(id_val) {
            Some(s) => s,
            None => {
                return Err(ConnectorError::WebhookReferenceIdNotFound);
            },
        };
        let ev_val = match jget(&doc, "eventType") {
            Some(x) => x,
            None => {
                return Err(ConnectorError::WebhookReferenceIdNotFound);
            },
        };
        let ev = match jas_str(ev_val) {
            Some(s) => s,
            None => {
                return Err(ConnectorError::WebhookReferenceIdNotFound);
            },
        };
        let st = match event_sync_status_exec(ev.as_str()) {
            Some(s) => s,
            None => {
                return Err(ConnectorError::WebhookReferenceIdNotFound);
            },
        };
        let sync = AuthorizedotnetSyncResponse { transaction_id: id, transaction_status: st };
        Ok(encode_sync_response(&sync))
    }
}

} // verus!
