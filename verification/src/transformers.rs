//! The connector's wire codec: the shapes its requests and replies take on
//! the wire, how the envelope's payloads are encoded into them, and how
//! received documents are read back.

use vstd::prelude::*;
use crate::json::{
    jas_array, jas_str, jas_u64, jget, jmodel, jobj_empty, jobj_set, jstr, ju64, JVal,
};
use crate::strutil::str_eq;
use crate::types::{AttemptStatus, RefundStatus, TransactionType};

verus! {

/// The connector's transaction-creation request as it goes on the wire.
#[derive(Debug)]
pub struct CreateTransactionRequest {
    pub transaction_type: TransactionType,
    pub amount: Option<u64>,
    pub card_number: Option<String>,
    pub ref_trans_id: Option<String>,
}

/// Mathematical image of a `CreateTransactionRequest`.
pub struct CreateTransactionRequestModel {
    pub transaction_type: TransactionType,
    pub amount: Option<u64>,
    pub card_number: Option<Seq<char>>,
    pub ref_trans_id: Option<Seq<char>>,
}

pub open spec fn ctr_view(r: CreateTransactionRequest) -> CreateTransactionRequestModel {
    CreateTransactionRequestModel {
        transaction_type: r.transaction_type,
        amount: r.amount,
        card_number: match r.card_number {
            Some(s) => Some(s@),
            None => None,
        },
        ref_trans_id: match r.ref_trans_id {
            Some(s) => Some(s@),
            None => None,
        },
    }
}

/// The wire name of each transaction subtype.
pub open spec fn transaction_type_name(t: TransactionType) -> Seq<char> {
    match t {
        TransactionType::Payment => "authCaptureTransaction"@,
        TransactionType::PaymentAuthOnly => "authOnlyTransaction"@,
        TransactionType::Capture => "priorAuthCaptureTransaction"@,
        TransactionType::Void => "voidTransaction"@,
        TransactionType::Refund => "refundTransaction"@,
    }
}

/// The transaction subtype a wire name denotes, if any.
pub open spec fn transaction_type_of_name(s: Seq<char>) -> Option<TransactionType> {
    if s == "authCaptureTransaction"@ {
        Some(TransactionType::Payment)
    } else if s == "authOnlyTransaction"@ {
        Some(TransactionType::PaymentAuthOnly)
    } else if s == "priorAuthCaptureTransaction"@ {
        Some(TransactionType::Capture)
    } else if s == "voidTransaction"@ {
        Some(TransactionType::Void)
    } else if s == "refundTransaction"@ {
        Some(TransactionType::Refund)
    } else {
        None
    }
}

/// The fields of the document a `CreateTransactionRequest` encodes to:
/// optional fields are simply absent.
pub open spec fn ctr_fields(m: CreateTransactionRequestModel) -> Map<Seq<char>, JVal> {
    let f0 = map![
        "transactionType"@ => JVal::Str(transaction_type_name(m.transaction_type))
    ];
    let f1 = match m.amount {
        Some(n) => f0.insert("amount"@, JVal::U64(n)),
        None => f0,
    };
    let f2 = match m.card_number {
        Some(s) => f1.insert("cardNumber"@, JVal::Str(s)),
        None => f1,
    };
    match m.ref_trans_id {
        Some(s) => f2.insert("refTransId"@, JVal::Str(s)),
        None => f2,
    }
}

/// The document a `CreateTransactionRequest` encodes to.
pub open spec fn ctr_document(m: CreateTransactionRequestModel) -> JVal {
    JVal::Obj(ctr_fields(m))
}

/// An optional `u64` field of an object: outer `None` where the key is
/// present but no `u64`.
pub open spec fn opt_u64_field(m: Map<Seq<char>, JVal>, k: Seq<char>) -> Option<Option<u64>> {
    if m.dom().contains(k) {
        match m[k] {
            JVal::U64(n) => Some(Some(n)),
            _ => None,
        }
    } else {
        Some(None)
    }
}

/// An optional string field of an object: outer `None` where the key is
/// present but no string.
pub open spec fn opt_str_field(m: Map<Seq<char>, JVal>, k: Seq<char>) -> Option<
    Option<Seq<char>>,
> {
    if m.dom().contains(k) {
        match m[k] {
            JVal::Str(s) => Some(Some(s)),
            _ => None,
        }
    } else {
        Some(None)
    }
}

/// A required string field of an object: `None` where absent or no string.
pub open spec fn req_str_field(m: Map<Seq<char>, JVal>, k: Seq<char>) -> Option<Seq<char>> {
    if m.dom().contains(k) {
        match m[k] {
            JVal::Str(s) => Some(s),
            _ => None,
        }
    } else {
        None
    }
}

/// Reading a `CreateTransactionRequest` back out of a document.
pub open spec fn ctr_of_document(j: JVal) -> Option<CreateTransactionRequestModel> {
    match j {
        JVal::Obj(m) => {
            if {
                &&& req_str_field(m, "transactionType"@) matches Some(t)
                &&& transaction_type_of_name(t) is Some
                &&& opt_u64_field(m, "amount"@) is Some
                &&& opt_str_field(m, "cardNumber"@) is Some
                &&& opt_str_field(m, "refTransId"@) is Some
            } {
                Some(
                    CreateTransactionRequestModel {
                        transaction_type: transaction_type_of_name(
                            req_str_field(m, "transactionType"@)->0,
                        )->0,
                        amount: opt_u64_field(m, "amount"@)->0,
                        card_number: opt_str_field(m, "cardNumber"@)->0,
                        ref_trans_id: opt_str_field(m, "refTransId"@)->0,
                    },
                )
            } else {
                None
            }
        },
        _ => None,
    }
}

pub fn transaction_type_name_exec(t: TransactionType) -> (r: &'static str)
    ensures
        r@ == transaction_type_name(t),
{
    match t {
        TransactionType::Payment => "authCaptureTransaction",
        TransactionType::PaymentAuthOnly => "authOnlyTransaction",
        TransactionType::Capture => "priorAuthCaptureTransaction",
        TransactionType::Void => "voidTransaction",
        TransactionType::Refund => "refundTransaction",
    }
}

pub fn transaction_type_of_name_exec(s: &str) -> (r: Option<TransactionType>)
    ensures
        r == transaction_type_of_name(s@),
{
    if str_eq(s, "authCaptureTransaction") {
        Some(TransactionType::Payment)
    } else if str_eq(s, "authOnlyTransaction") {
        Some(TransactionType::PaymentAuthOnly)
    } else if str_eq(s, "priorAuthCaptureTransaction") {
        Some(TransactionType::Capture)
    } else if str_eq(s, "voidTransaction") {
        Some(TransactionType::Void)
    } else if str_eq(s, "refundTransaction") {
        Some(TransactionType::Refund)
    } else {
        None
    }
}

/// Encodes a transaction-creation request into its wire document.
pub fn encode_create_transaction_request(r: &CreateTransactionRequest) -> (v: serde_json::Value)
    ensures
        jmodel(v) == ctr_document(ctr_view(*r)),
{
    let mut v = jobj_empty();
    let tname = transaction_type_name_exec(r.transaction_type);
    jobj_set(&mut v, "transactionType", jstr(tname));
    match &r.amount {
        Some(n) => jobj_set(&mut v, "amount", ju64(*n)),
        None => (),
    }
    match &r.card_number {
        Some(s) => jobj_set(&mut v, "cardNumber", jstr(s.as_str())),
        None => (),
    }
    match &r.ref_trans_id {
        Some(s) => jobj_set(&mut v, "refTransId", jstr(s.as_str())),
        None => (),
    }
    v
}

/// Reads a transaction-creation request back out of a wire document.
pub fn parse_create_transaction_request(v: &serde_json::Value) -> (r: Option<
    CreateTransactionRequest,
>)
    ensures
        r is Some <==> ctr_of_document(jmodel(*v)) is Some,
        r matches Some(c) ==> ctr_of_document(jmodel(*v)) == Some(ctr_view(c)),
{
    let tt_val = match jget(v, "transactionType") {
        Some(x) => x,
        None => {
            return None;
        },
    };
    let tt_str = match jas_str(tt_val) {
        Some(s) => s,
        None => {
            return None;
        },
    };
    let tt = match transaction_type_of_name_exec(tt_str.as_str()) {
        Some(t) => t,
        None => {
            return None;
        },
    };
    let amount = match jget(v, "amount") {
        Some(x) => match jas_u64(x) {
            Some(n) => Some(n),
            None => {
                return None;
            },
        },
        None => None,
    };
    let card_number = match jget(v, "cardNumber") {
        Some(x) => match jas_str(x) {
            Some(s) => Some(s),
            None => {
                return None;
            },
        },
        None => None,
    };
    let ref_trans_id = match jget(v, "refTransId") {
        Some(x) => match jas_str(x) {
            Some(s) => Some(s),
            None => {
                return None;
            },
        },
        None => None,
    };
    Some(
        CreateTransactionRequest {
            transaction_type: tt,
            amount,
            card_number,
            ref_trans_id,
        },
    )
}

/// Encoding a transaction-creation request and reading the document back
/// recovers the request exactly, for every request.
pub proof fn lemma_create_transaction_round_trip(m: CreateTransactionRequestModel)
    ensures
        ctr_of_document(ctr_document(m)) == Some(m),
{
    reveal_strlit("transactionType");
    reveal_strlit("amount");
    reveal_strlit("cardNumber");
    reveal_strlit("refTransId");
    reveal_strlit("authCaptureTransaction");
    reveal_strlit("authOnlyTransaction");
    reveal_strlit("priorAuthCaptureTransaction");
    reveal_strlit("voidTransaction");
    reveal_strlit("refundTransaction");
    broadcast use vstd::string::group_string_axioms;

    assert("transactionType"@.len() == 15);
    assert("amount"@.len() == 6);
    assert("authCaptureTransaction"@.len() == 22);
    assert("authOnlyTransaction"@.len() == 19);
    assert("priorAuthCaptureTransaction"@.len() == 27);
    assert("voidTransaction"@.len() == 15);
    assert("refundTransaction"@.len() == 17);
    assert(("cardNumber"@)[0] != ("refTransId"@)[0]);
    assert("transactionType"@ != "amount"@);
    assert("transactionType"@ != "cardNumber"@);
    assert("transactionType"@ != "refTransId"@);
    assert("amount"@ != "cardNumber"@);
    assert("amount"@ != "refTransId"@);
    assert("cardNumber"@ != "refTransId"@);
    let fields = ctr_fields(m);
    assert(req_str_field(fields, "transactionType"@) == Some(
        transaction_type_name(m.transaction_type),
    ));
    assert(transaction_type_of_name(transaction_type_name(m.transaction_type)) == Some(
        m.transaction_type,
    ));
    assert(opt_u64_field(fields, "amount"@) == Some(m.amount));
    assert(opt_str_field(fields, "cardNumber"@) == Some(m.card_number));
    assert(opt_str_field(fields, "refTransId"@) == Some(m.ref_trans_id));
}

/// Every transaction-creation document is one object of leaf values, well
/// within the printable nesting depth.
pub proof fn lemma_ctr_document_within_depth(m: CreateTransactionRequestModel)
    ensures
        crate::json::jval_depth_le(ctr_document(m), crate::json::depth_limit()),
{
    let fields = ctr_fields(m);
    assert forall|k: Seq<char>| fields.dom().contains(k) implies crate::json::jval_depth_le(
        #[trigger] fields[k],
        (crate::json::depth_limit() - 1) as nat,
    ) by {
        assert(fields[k] is Str || fields[k] is U64);
    };
}

/// The connector's transaction-detail (sync) request as it goes on the wire.
#[derive(Debug)]
pub struct AuthorizedotnetCreateSyncRequest {
    pub transaction_id: String,
}

/// The document a sync request encodes to.
pub open spec fn sync_request_document(tid: Seq<char>) -> JVal {
    JVal::Obj(map!["transId"@ => JVal::Str(tid)])
}

/// Reading a sync request back out of a document.
pub open spec fn sync_request_of_document(j: JVal) -> Option<Seq<char>> {
    match j {
        JVal::Obj(m) => req_str_field(m, "transId"@),
        _ => None,
    }
}

/// Encodes a sync request into its wire document.
pub fn encode_sync_request(r: &AuthorizedotnetCreateSyncRequest) -> (v: serde_json::Value)
    ensures
        jmodel(v) == sync_request_document(r.transaction_id@),
{
    let mut v = jobj_empty();
    jobj_set(&mut v, "transId", jstr(r.transaction_id.as_str()));
    proof {
        assert(Map::<Seq<char>, JVal>::empty().insert("transId"@, JVal::Str(r.transaction_id@))
            =~= map!["transId"@ => JVal::Str(r.transaction_id@)]);
    }
    v
}

/// Reads a sync request back out of a wire document.
pub fn parse_sync_request(v: &serde_json::Value) -> (r: Option<AuthorizedotnetCreateSyncRequest>)
    ensures
        r is Some <==> sync_request_of_document(jmodel(*v)) is Some,
        r matches Some(c) ==> sync_request_of_document(jmodel(*v)) == Some(c.transaction_id@),
{
    let tid_val = match jget(v, "transId") {
        Some(x) => x,
        None => {
            return None;
        },
    };
    let tid = match jas_str(tid_val) {
        Some(s) => s,
        None => {
            return None;
        },
    };
    Some(AuthorizedotnetCreateSyncRequest { transaction_id: tid })
}

/// Encoding a sync request and reading the document back recovers the
/// transaction identifier exactly, for every identifier.
pub proof fn lemma_sync_request_round_trip(tid: Seq<char>)
    ensures
        sync_request_of_document(sync_request_document(tid)) == Some(tid),
{
}

/// Every sync-request document is one object of one leaf value, well within
/// the printable nesting depth.
pub proof fn lemma_sync_request_document_within_depth(tid: Seq<char>)
    ensures
        crate::json::jval_depth_le(sync_request_document(tid), crate::json::depth_limit()),
{
    let fields = sync_request_document(tid)->Obj_0;
    assert forall|k: Seq<char>| fields.dom().contains(k) implies crate::json::jval_depth_le(
        #[trigger] fields[k],
        (crate::json::depth_limit() - 1) as nat,
    ) by {
        assert(fields[k] is Str);
    };
}

/// One error entry of a connector reply.
#[derive(Debug)]
pub struct ResponseError {
    pub error_code: String,
    pub error_text: String,
}

/// Mathematical image of a `ResponseError`.
pub struct ResponseErrorModel {
    pub error_code: Seq<char>,
    pub error_text: Seq<char>,
}

pub open spec fn response_error_view(e: ResponseError) -> ResponseErrorModel {
    ResponseErrorModel { error_code: e.error_code@, error_text: e.error_text@ }
}

/// Reading one error entry out of a document.
pub open spec fn response_error_of(j: JVal) -> Option<ResponseErrorModel> {
    match j {
        JVal::Obj(m) => {
            if {
                &&& req_str_field(m, "errorCode"@) is Some
                &&& req_str_field(m, "errorText"@) is Some
            } {
                Some(
                    ResponseErrorModel {
                        error_code: req_str_field(m, "errorCode"@)->0,
                        error_text: req_str_field(m, "errorText"@)->0,
                    },
                )
            } else {
                None
            }
        },
        _ => None,
    }
}

/// Reading a whole error list: `None` as soon as one entry is malformed.
pub open spec fn error_list_of(s: Seq<JVal>) -> Option<Seq<ResponseErrorModel>> {
    if forall|k: int| 0 <= k < s.len() ==> response_error_of(s[k]) is Some {
        Some(Seq::new(s.len(), |k: int| response_error_of(s[k])->0))
    } else {
        None
    }
}

proof fn lemma_error_list_none(s: Seq<JVal>, i: int)
    requires
        0 <= i < s.len(),
        response_error_of(s[i]) is None,
    ensures
        error_list_of(s) is None,
{
    assert(!(response_error_of(s[i]) is Some));
}

/// A malformed entry in the error list makes the whole reply malformed.
proof fn lemma_reply_malformed_errors(doc: JVal, tr: JVal, arr: JVal, s: Seq<JVal>, i: int)
    requires
        doc matches JVal::Obj(m) && m.dom().contains("transactionResponse"@)
            && m["transactionResponse"@] == tr,
        tr matches JVal::Obj(mt) && mt.dom().contains("errors"@) && mt["errors"@] == arr,
        arr == JVal::Arr(s),
        0 <= i < s.len(),
        response_error_of(s[i]) is None,
    ensures
        payments_response_of(doc) is None,
{
    lemma_error_list_none(s, i);
    assert(opt_errors_field(tr->Obj_0) is None);
    assert(transaction_response_of(tr) is None);
}

/// The transaction-response part of a connector reply.
#[derive(Debug)]
pub struct TransactionResponse {
    pub response_code: u64,
    pub transaction_id: Option<String>,
    pub errors: Option<Vec<ResponseError>>,
}

/// Mathematical image of a `TransactionResponse`.
pub struct TransactionResponseModel {
    pub response_code: u64,
    pub transaction_id: Option<Seq<char>>,
    pub errors: Option<Seq<ResponseErrorModel>>,
}

pub open spec fn transaction_response_view(t: TransactionResponse) -> TransactionResponseModel {
    TransactionResponseModel {
        response_code: t.response_code,
        transaction_id: match t.transaction_id {
            Some(s) => Some(s@),
            None => None,
        },
        errors: match t.errors {
            Some(v) => Some(v@.map_values(|e: ResponseError| response_error_view(e))),
            None => None,
        },
    }
}

/// A connector reply to a transaction-creation request, success or error.
#[derive(Debug)]
pub struct AuthorizedotnetPaymentsResponse {
    pub transaction_response: TransactionResponse,
}

/// A required `u64` field of an object: `None` where absent or no `u64`.
pub open spec fn req_u64_field(m: Map<Seq<char>, JVal>, k: Seq<char>) -> Option<u64> {
    if m.dom().contains(k) {
        match m[k] {
            JVal::U64(n) => Some(n),
            _ => None,
        }
    } else {
        None
    }
}

/// The optional error list of a transaction response: outer `None` where the
/// key is present but the list is no well-formed error list.
pub open spec fn opt_errors_field(m: Map<Seq<char>, JVal>) -> Option<
    Option<Seq<ResponseErrorModel>>,
> {
    if m.dom().contains("errors"@) {
        match m["errors"@] {
            JVal::Arr(s) => match error_list_of(s) {
                Some(l) => Some(Some(l)),
                None => None,
            },
            _ => None,
        }
    } else {
        Some(None)
    }
}

/// Reading the transaction-response object out of a document.
pub open spec fn transaction_response_of(j: JVal) -> Option<TransactionResponseModel> {
    match j {
        JVal::Obj(m) => {
            if {
                &&& req_u64_field(m, "responseCode"@) is Some
                &&& opt_str_field(m, "transId"@) is Some
                &&& opt_errors_field(m) is Some
            } {
                Some(
                    TransactionResponseModel {
                        response_code: req_u64_field(m, "responseCode"@)->0,
                        transaction_id: opt_str_field(m, "transId"@)->0,
                        errors: opt_errors_field(m)->0,
                    },
                )
            } else {
                None
            }
        },
        _ => None,
    }
}

/// Reading a whole connector reply out of a document: the reply must be an
/// object carrying a well-formed `transactionResponse` object.
pub open spec fn payments_response_of(j: JVal) -> Option<TransactionResponseModel> {
    match j {
        JVal::Obj(m) => {
            if m.dom().contains("transactionResponse"@) {
                transaction_response_of(m["transactionResponse"@])
            } else {
                None
            }
        },
        _ => None,
    }
}

/// Reads a connector reply out of a wire document; `None` exactly where the
/// document does not have the reply's shape.
#[verifier::loop_isolation(false)]
pub fn parse_payments_response(v: &serde_json::Value) -> (r: Option<
    AuthorizedotnetPaymentsResponse,
>)
    ensures
        r is Some <==> payments_response_of(jmodel(*v)) is Some,
        r matches Some(p) ==> payments_response_of(jmodel(*v)) == Some(
            transaction_response_view(p.transaction_response),
        ),
{
    let tr = match jget(v, "transactionResponse") {
        Some(x) => x,
        None => {
            return None;
        },
    };
    let code_val = match jget(tr, "responseCode") {
        Some(x) => x,
        None => {
            return None;
        },
    };
    let response_code = match jas_u64(code_val) {
        Some(n) => n,
        None => {
            return None;
        },
    };
    let transaction_id = match jget(tr, "transId") {
        Some(x) => match jas_str(x) {
            Some(s) => Some(s),
            None => {
                return None;
            },
        },
        None => None,
    };
    let errors: Option<Vec<ResponseError>> = match jget(tr, "errors") {
        Some(x) => {
            let arr = match jas_array(x) {
                Some(a) => a,
                None => {
                    return None;
                },
            };
            let ghost models = arr@.map_values(|e: serde_json::Value| jmodel(e));
            let mut out: Vec<ResponseError> = Vec::new();
            let mut i: usize = 0;
            while i < arr.len()
                invariant
                    i <= arr.len(),
                    models == arr@.map_values(|e: serde_json::Value| jmodel(e)),
                    models.len() == arr@.len(),
                    out@.len() == i as int,
                    forall|k: int| 0 <= k < i ==> response_error_of(models[k]) is Some,
                    forall|k: int|
                        0 <= k < i ==> response_error_view(out@[k]) == response_error_of(
                            models[k],
                        )->0,
                decreases arr@.len() - i,
            {
                let item = &arr[i];
                assert(jmodel(*item) == models[i as int]);
                let code_v = match jget(item, "errorCode") {
                    Some(c) => c,
                    None => {
                        proof {
                            lemma_reply_malformed_errors(
                                jmodel(*v),
                                jmodel(*tr),
                                jmodel(*x),
                                models,
                                i as int,
                            );
                        }
                        return None;
                    },
                };
                let code = match jas_str(code_v) {
                    Some(s) => s,
                    None => {
                        proof {
                            lemma_reply_malformed_errors(
                                jmodel(*v),
                                jmodel(*tr),
                                jmodel(*x),
                                models,
                                i as int,
                            );
                        }
                        return None;
                    },
                };
                let text_v = match jget(item, "errorText") {
                    Some(c) => c,
                    None => {
                        proof {
                            lemma_reply_malformed_errors(
                                jmodel(*v),
                                jmodel(*tr),
                                jmodel(*x),
                                models,
                                i as int,
                            );
                        }
                        return None;
                    },
                };
                let text = match jas_str(text_v) {
                    Some(s) => s,
                    None => {
                        proof {
                            lemma_reply_malformed_errors(
                                jmodel(*v),
                                jmodel(*tr),
                                jmodel(*x),
                                models,
                                i as int,
                            );
                        }
                        return None;
                    },
                };
                out.push(ResponseError { error_code: code, error_text: text });
                i += 1;
            }
            proof {
                assert(out@.map_values(|e: ResponseError| response_error_view(e)) =~= Seq::new(
                    models.len(),
                    |k: int| response_error_of(models[k])->0,
                ));
            }
            Some(out)
        },
        None => None,
    };
    Some(
        AuthorizedotnetPaymentsResponse {
            transaction_response: TransactionResponse {
                response_code,
                transaction_id,
                errors,
            },
        },
    )
}

/// The wire name of each sync transaction status.
pub open spec fn sync_status_name(s: SyncStatus) -> Seq<char> {
    match s {
        SyncStatus::AuthorizedPendingCapture => "authorizedPendingCapture"@,
        SyncStatus::CapturedPendingSettlement => "capturedPendingSettlement"@,
        SyncStatus::SettledSuccessfully => "settledSuccessfully"@,
        SyncStatus::Declined => "declined"@,
        SyncStatus::Voided => "voided"@,
    }
}

/// The sync transaction status a wire name denotes, if any.
pub open spec fn sync_status_of_name(s: Seq<char>) -> Option<SyncStatus> {
    if s == "authorizedPendingCapture"@ {
        Some(SyncStatus::AuthorizedPendingCapture)
    } else if s == "capturedPendingSettlement"@ {
        Some(SyncStatus::CapturedPendingSettlement)
    } else if s == "settledSuccessfully"@ {
        Some(SyncStatus::SettledSuccessfully)
    } else if s == "declined"@ {
        Some(SyncStatus::Declined)
    } else if s == "voided"@ {
        Some(SyncStatus::Voided)
    } else {
        None
    }
}

/// Status of a transaction as the connector's sync endpoint reports it.
#[derive(Clone, Copy, Debug, PartialEq, Eq, Structural)]
pub enum SyncStatus {
    AuthorizedPendingCapture,
    CapturedPendingSettlement,
    SettledSuccessfully,
    Declined,
    Voided,
}

/// A connector reply to a sync request, and the normalized shape a webhook
/// resource is converted into.
#[derive(Debug)]
pub struct AuthorizedotnetSyncResponse {
    pub transaction_id: String,
    pub transaction_status: SyncStatus,
}

/// The document a sync response encodes to.
pub open spec fn sync_response_document(tid: Seq<char>, st: SyncStatus) -> JVal {
    JVal::Obj(
        map![
            "transId"@ => JVal::Str(tid),
            "transactionStatus"@ => JVal::Str(sync_status_name(st))
        ],
    )
}

/// Reading a sync response back out of a document.
pub open spec fn sync_response_of_document(j: JVal) -> Option<(Seq<char>, SyncStatus)> {
    match j {
        JVal::Obj(m) => {
            if {
                &&& req_str_field(m, "transId"@) is Some
                &&& req_str_field(m, "transactionStatus"@) is Some
                &&& sync_status_of_name(req_str_field(m, "transactionStatus"@)->0) is Some
            } {
                Some(
                    (
                        req_str_field(m, "transId"@)->0,
                        sync_status_of_name(req_str_field(m, "transactionStatus"@)->0)->0,
                    ),
                )
            } else {
                None
            }
        },
        _ => None,
    }
}

pub fn sync_status_name_exec(s: SyncStatus) -> (r: &'static str)
    ensures
        r@ == sync_status_name(s),
{
    match s {
        SyncStatus::AuthorizedPendingCapture => "authorizedPendingCapture",
        SyncStatus::CapturedPendingSettlement => "capturedPendingSettlement",
        SyncStatus::SettledSuccessfully => "settledSuccessfully",
        SyncStatus::Declined => "declined",
        SyncStatus::Voided => "voided",
    }
}

pub fn sync_status_of_name_exec(s: &str) -> (r: Option<SyncStatus>)
    ensures
        r == sync_status_of_name(s@),
{
    if str_eq(s, "authorizedPendingCapture") {
        Some(SyncStatus::AuthorizedPendingCapture)
    } else if str_eq(s, "capturedPendingSettlement") {
        Some(SyncStatus::CapturedPendingSettlement)
    } else if str_eq(s, "settledSuccessfully") {
        Some(SyncStatus::SettledSuccessfully)
    } else if str_eq(s, "declined") {
        Some(SyncStatus::Declined)
    } else if str_eq(s, "voided") {
        Some(SyncStatus::Voided)
    } else {
        None
    }
}

/// Encodes a sync response into its wire document.
pub fn encode_sync_response(r: &AuthorizedotnetSyncResponse) -> (v: serde_json::Value)
    ensures
        jmodel(v) == sync_response_document(r.transaction_id@, r.transaction_status),
{
    let mut v = jobj_empty();
    jobj_set(&mut v, "transId", jstr(r.transaction_id.as_str()));
    jobj_set(&mut v, "transactionStatus", jstr(sync_status_name_exec(r.transaction_status)));
    proof {
        assert(Map::<Seq<char>, JVal>::empty().insert(
            "transId"@,
            JVal::Str(r.transaction_id@),
        ).insert("transactionStatus"@, JVal::Str(sync_status_name(r.transaction_status))) =~= map![
            "transId"@ => JVal::Str(r.transaction_id@),
            "transactionStatus"@ => JVal::Str(sync_status_name(r.transaction_status))
        ]);
    }
    v
}

/// Reads a sync response out of a wire document.
pub fn parse_sync_response(v: &serde_json::Value) -> (r: Option<AuthorizedotnetSyncResponse>)
    ensures
        r is Some <==> sync_response_of_document(jmodel(*v)) is Some,
        r matches Some(c) ==> sync_response_of_document(jmodel(*v)) == Some(
            (c.transaction_id@, c.transaction_status),
        ),
{
    let tid_val = match jget(v, "transId") {
        Some(x) => x,
        None => {
            return None;
        },
    };
    let tid = match jas_str(tid_val) {
        Some(s) => s,
        None => {
            return None;
        },
    };
    let st_val = match jget(v, "transactionStatus") {
        Some(x) => x,
        None => {
            return None;
        },
    };
    let st_str = match jas_str(st_val) {
        Some(s) => s,
        None => {
            return None;
        },
    };
    let st = match sync_status_of_name_exec(st_str.as_str()) {
        Some(s) => s,
        None => {
            return None;
        },
    };
    Some(AuthorizedotnetSyncResponse { transaction_id: tid, transaction_status: st })
}

/// Encoding a sync response and reading the document back recovers the
/// identifier and status exactly, for every pair.
pub proof fn lemma_sync_response_round_trip(tid: Seq<char>, st: SyncStatus)
    ensures
        sync_response_of_document(sync_response_document(tid, st)) == Some((tid, st)),
{
    reveal_strlit("transId");
    reveal_strlit("transactionStatus");
    reveal_strlit("authorizedPendingCapture");
    reveal_strlit("capturedPendingSettlement");
    reveal_strlit("settledSuccessfully");
    reveal_strlit("declined");
    reveal_strlit("voided");
    assert("transId"@.len() == 7);
    assert("transactionStatus"@.len() == 17);
    assert("authorizedPendingCapture"@.len() == 24);
    assert("capturedPendingSettlement"@.len() == 25);
    assert("settledSuccessfully"@.len() == 19);
    assert("declined"@.len() == 8);
    assert("voided"@.len() == 6);
}

/// The response code the connector uses for an approved transaction.
pub open spec fn approved_code() -> u64 {
    1u64
}

/// The attempt status a transaction-creation reply yields: an approved code
/// maps by sub-transaction semantics, any other code is a failure.
pub open spec fn attempt_status_for(code: u64, t: TransactionType) -> AttemptStatus {
    if code == approved_code() {
        match t {
            TransactionType::PaymentAuthOnly => AttemptStatus::Authorized,
            TransactionType::Payment => AttemptStatus::Charged,
            TransactionType::Capture => AttemptStatus::Charged,
            TransactionType::Void => AttemptStatus::Voided,
            TransactionType::Refund => AttemptStatus::Charged,
        }
    } else {
        AttemptStatus::Failure
    }
}

pub fn attempt_status_for_exec(code: u64, t: TransactionType) -> (r: AttemptStatus)
    ensures
        r == attempt_status_for(code, t),
{
    if code == 1u64 {
        match t {
            TransactionType::PaymentAuthOnly => AttemptStatus::Authorized,
            TransactionType::Payment => AttemptStatus::Charged,
            TransactionType::Capture => AttemptStatus::Charged,
            TransactionType::Void => AttemptStatus::Voided,
            TransactionType::Refund => AttemptStatus::Charged,
        }
    } else {
        AttemptStatus::Failure
    }
}

/// The refund status a transaction-creation reply yields.
pub open spec fn refund_status_for(code: u64) -> RefundStatus {
    if code == approved_code() {
        RefundStatus::Success
    } else {
        RefundStatus::Failure
    }
}

pub fn refund_status_for_exec(code: u64) -> (r: RefundStatus)
    ensures
        r == refund_status_for(code),
{
    if code == 1u64 {
        RefundStatus::Success
    } else {
        RefundStatus::Failure
    }
}

/// The attempt status a sync status maps to.
pub open spec fn attempt_status_of_sync(s: SyncStatus) -> AttemptStatus {
    match s {
        SyncStatus::AuthorizedPendingCapture => AttemptStatus::Authorized,
        SyncStatus::CapturedPendingSettlement => AttemptStatus::Charged,
        SyncStatus::SettledSuccessfully => AttemptStatus::Charged,
        SyncStatus::Declined => AttemptStatus::Failure,
        SyncStatus::Voided => AttemptStatus::Voided,
    }
}

pub fn attempt_status_of_sync_exec(s: SyncStatus) -> (r: AttemptStatus)
    ensures
        r == attempt_status_of_sync(s),
{
    match s {
        SyncStatus::AuthorizedPendingCapture => AttemptStatus::Authorized,
        SyncStatus::CapturedPendingSettlement => AttemptStatus::Charged,
        SyncStatus::SettledSuccessfully => AttemptStatus::Charged,
        SyncStatus::Declined => AttemptStatus::Failure,
        SyncStatus::Voided => AttemptStatus::Voided,
    }
}

/// The refund status a sync status maps to.
pub open spec fn refund_status_of_sync(s: SyncStatus) -> RefundStatus {
    match s {
        SyncStatus::SettledSuccessfully => RefundStatus::Success,
        SyncStatus::Declined => RefundStatus::Failure,
        _ => RefundStatus::Pending,
    }
}

pub fn refund_status_of_sync_exec(s: SyncStatus) -> (r: RefundStatus)
    ensures
        r == refund_status_of_sync(s),
{
    match s {
        SyncStatus::SettledSuccessfully => RefundStatus::Success,
        SyncStatus::Declined => RefundStatus::Failure,
        SyncStatus::AuthorizedPendingCapture => RefundStatus::Pending,
        SyncStatus::CapturedPendingSettlement => RefundStatus::Pending,
        SyncStatus::Voided => RefundStatus::Pending,
    }
}

} // verus!
