use vstd::prelude::*;
use vstd::utf8::encode_utf8;

use crate::error::ServiceError;
use crate::evidence::{
    checked_evidence_from_payload, evidence_from_payload, evidence_of, evidence_readable,
    lemma_evidence_round_trip,
};
use crate::message::{payload_code, payload_code_text, query_message, query_text, upload_message, upload_text};
use crate::rpc::{hash_key, payload_from_reply, reply_field, reply_payload, tx_hash_from_reply};
use crate::hex_text::hex_lower;
use crate::signature::{expected_signature, hmac_sha256, verify_sig, verify_sig_transfer};

verus! {

/// Address of the contract that stores evidence and receives transfers.
pub const STORE_ADDRESS: &'static str = "0xffffffffffffffffffffffffffffffffff010000";

/// JSON-RPC endpoint of the CITA node.
pub const RPC_URL: &'static str = "http://101.132.38.100:1337";

/// Amount sent by a transfer, as the hexadecimal text that `U256::from_str`
/// reads.
pub const TRANSFER_AMOUNT: &'static str = "1000000000000000000000";

/// Amount sent with an evidence upload.
pub const UPLOAD_AMOUNT: &'static str = "0";

/// A request to upload evidence, signed by the user.
pub struct UploadData {
    pub email: String,
    pub evidence: String,
    pub timestamp: i64,
    pub signature: String,
}

/// A request to read back the evidence stored by a transaction.
pub struct QueryData {
    pub email: String,
    pub txid: String,
    pub timestamp: i64,
    pub signature: String,
}

/// The hash of a sent transaction.
pub struct TxObj {
    pub txid: String,
}

/// The answer to an upload.
pub struct UploadReturnData {
    pub rescode: i64,
    pub resmsg: String,
    pub data: TxObj,
}

/// The answer to a transfer.
pub struct TransferReturnData {
    pub rescode: i64,
    pub resmsg: String,
    pub data: TxObj,
}

/// Evidence read back from the chain.
pub struct EvidenceObj {
    pub evidence: String,
}

/// The answer to a query.
pub struct QueryReturnData {
    pub rescode: i64,
    pub resmsg: String,
    pub data: EvidenceObj,
}

/// A transaction to send to the node: its code, the receiving address and
/// the amount (hexadecimal text).
pub struct TransactionRequest {
    pub code: String,
    pub address: String,
    pub value: String,
}

/// `Success`, the message of every successful answer.
pub open spec fn success_text() -> Seq<char> {
    seq!['S', 'u', 'c', 'c', 'e', 's', 's']
}

fn success_message() -> (s: String)
    ensures
        s@ == success_text(),
{
    proof {
        reveal_strlit("Success");
    }
    String::from_str("Success")
}

/// The signing key of the user that a lookup found: the last of the matching
/// users' password hashes.
pub open spec fn found_key(user_hashes: Seq<String>) -> Option<Seq<char>> {
    if user_hashes.len() == 0 {
        None
    } else {
        Some(user_hashes.last()@)
    }
}

/// An upload is authorized when a user was found and the request carries the
/// signature of its message under that user's key.
pub open spec fn upload_authorized(user_hashes: Seq<String>, upload: UploadData) -> bool {
    match found_key(user_hashes) {
        Some(key) => expected_signature(key, upload_text(upload.evidence@, upload.timestamp as int))
            == upload.signature@,
        None => false,
    }
}

/// A query is authorized when a user was found and the request carries the
/// signature of its message under that user's key.
pub open spec fn query_authorized(user_hashes: Seq<String>, query: QueryData) -> bool {
    match found_key(user_hashes) {
        Some(key) => expected_signature(key, query_text(query.txid@, query.timestamp as int))
            == query.signature@,
        None => false,
    }
}

/// Decides an upload once the users with the request's email are known:
/// refuses it as unauthorized, or gives the transaction that stores the
/// signed message on chain.
pub fn upload_plan(user_hashes: &Vec<String>, upload: &UploadData) -> (r: Result<
    TransactionRequest,
    ServiceError,
>)
    ensures
        r is Ok <==> upload_authorized(user_hashes@, *upload),
        r is Err ==> r == Err::<TransactionRequest, ServiceError>(ServiceError::Unauthorized),
        r matches Ok(tx) ==> {
            &&& tx.code@ == payload_code_text(
                upload_text(upload.evidence@, upload.timestamp as int),
            )
            &&& tx.address@ == STORE_ADDRESS@
            &&& tx.value@ == UPLOAD_AMOUNT@
        },
{
    let n: usize = user_hashes.len();
    if n == 0 {
        return Err(ServiceError::Unauthorized);
    }
    let key = &user_hashes[n - 1];
    let msg = upload_message(upload.evidence.as_str(), upload.timestamp);
    if let Ok(matching) = verify_sig(key.as_str(), msg.as_str(), upload.signature.as_str()) {
        if matching {
            let code = payload_code(msg.as_str());
            return Ok(
                TransactionRequest {
                    code,
                    address: String::from_str(STORE_ADDRESS),
                    value: String::from_str(UPLOAD_AMOUNT),
                },
            );
        }
    }
    Err(ServiceError::Unauthorized)
}

/// Decides a query once the users with the request's email are known:
/// refuses it as unauthorized, or gives the hash of the transaction to fetch.
pub fn query_plan(user_hashes: &Vec<String>, query: &QueryData) -> (r: Result<String, ServiceError>)
    ensures
        r is Ok <==> query_authorized(user_hashes@, *query),
        r is Err ==> r == Err::<String, ServiceError>(ServiceError::Unauthorized),
        r matches Ok(txid) ==> txid@ == query.txid@,
{
    let n: usize = user_hashes.len();
    if n == 0 {
        return Err(ServiceError::Unauthorized);
    }
    let key = &user_hashes[n - 1];
    let msg = query_message(query.txid.as_str(), query.timestamp);
    if let Ok(matching) = verify_sig(key.as_str(), msg.as_str(), query.signature.as_str()) {
        if matching {
            return Ok(query.txid.clone());
        }
    }
    Err(ServiceError::Unauthorized)
}

/// Decides a transfer once the users with the request's email are known:
/// refuses it as unauthorized when there is none, and otherwise gives the
/// transfer transaction (transfer requests carry no checked signature).
pub fn transfer_plan(user_hashes: &Vec<String>) -> (r: Result<TransactionRequest, ServiceError>)
    ensures
        r is Ok <==> user_hashes@.len() > 0,
        r is Err ==> r == Err::<TransactionRequest, ServiceError>(ServiceError::Unauthorized),
        r matches Ok(tx) ==> {
            &&& tx.code@ == Seq::<char>::empty()
            &&& tx.address@ == STORE_ADDRESS@
            &&& tx.value@ == TRANSFER_AMOUNT@
        },
{
    if user_hashes.len() == 0 {
        return Err(ServiceError::Unauthorized);
    }
    if let Ok(matching) = verify_sig_transfer() {
        if matching {
            return Ok(
                TransactionRequest {
                    code: String::new(),
                    address: String::from_str(STORE_ADDRESS),
                    value: String::from_str(TRANSFER_AMOUNT),
                },
            );
        }
    }
    Err(ServiceError::Unauthorized)
}

/// The answer to an upload, built from the node's reply to the sent
/// transaction; `None` when the reply holds no readable hash.
pub fn upload_reply(response: &str) -> (r: Option<UploadReturnData>)
    ensures
        r is Some <==> reply_field(response@, hash_key()) is Some,
        r matches Some(d) ==> {
            &&& d.rescode == 1
            &&& d.resmsg@ == success_text()
            &&& Some(d.data.txid@) == reply_field(response@, hash_key())
        },
{
    match tx_hash_from_reply(response) {
        Some(txid) => Some(
            UploadReturnData { rescode: 1, resmsg: success_message(), data: TxObj { txid } },
        ),
        None => None,
    }
}

/// The answer to a transfer, built from the node's reply to the sent
/// transaction; `None` when the reply holds no readable hash.
pub fn transfer_reply(response: &str) -> (r: Option<TransferReturnData>)
    ensures
        r is Some <==> reply_field(response@, hash_key()) is Some,
        r matches Some(d) ==> {
            &&& d.rescode == 1
            &&& d.resmsg@ == success_text()
            &&& Some(d.data.txid@) == reply_field(response@, hash_key())
        },
{
    match tx_hash_from_reply(response) {
        Some(txid) => Some(
            TransferReturnData { rescode: 1, resmsg: success_message(), data: TxObj { txid } },
        ),
        None => None,
    }
}

/// The answer to a query from the payload of the fetched transaction:
/// unauthorized when the reply held no transaction, otherwise the evidence
/// stored in the payload.
pub open spec fn query_answer_matches(
    payload: Option<Seq<u8>>,
    r: Result<QueryReturnData, ServiceError>,
) -> bool {
    match payload {
        None => r == Err::<QueryReturnData, ServiceError>(ServiceError::Unauthorized),
        Some(data) => r matches Ok(d) && d.rescode == 1 && d.resmsg@ == success_text()
            && d.data.evidence@ == evidence_of(data),
    }
}

/// Builds the answer to a query from the payload of the fetched transaction.
pub fn query_answer(payload: Option<Vec<u8>>) -> (r: Result<QueryReturnData, ServiceError>)
    requires
        payload matches Some(data) ==> evidence_readable(data@),
    ensures
        query_answer_matches(
            match payload {
                Some(data) => Some(data@),
                None => None,
            },
            r,
        ),
{
    match payload {
        None => Err(ServiceError::Unauthorized),
        Some(data) => {
            let evidence = evidence_from_payload(data.as_slice());
            Ok(
                QueryReturnData {
                    rescode: 1,
                    resmsg: success_message(),
                    data: EvidenceObj { evidence },
                },
            )
        },
    }
}

/// A transaction reply that a query can answer from: a readable reply whose
/// transaction, if any, holds a readable payload.
pub open spec fn query_reply_readable(response: Seq<char>) -> bool {
    match reply_payload(response) {
        Some(Some(data)) => evidence_readable(data),
        Some(None) => true,
        None => false,
    }
}

/// The answer to a query from the node's reply about the transaction;
/// `None` when the reply, the transaction or its payload cannot be read.
pub fn query_reply(response: &str) -> (r: Option<Result<QueryReturnData, ServiceError>>)
    ensures
        r is Some <==> query_reply_readable(response@),
        r matches Some(answer) ==> query_answer_matches(
            reply_payload(response@)->Some_0,
            answer,
        ),
{
    match payload_from_reply(response) {
        None => None,
        Some(None) => Some(query_answer(None)),
        Some(Some(data)) => {
            match checked_evidence_from_payload(data.as_slice()) {
                Some(_) => Some(query_answer(Some(data))),
                None => None,
            }
        },
    }
}

/// A query about the transaction that an upload sent answers with the
/// uploaded evidence: the payload of the upload's code (the UTF-8 bytes of the
/// signed message) is readable and answered with exactly that evidence, for
/// evidence without `&`.
pub proof fn lemma_query_answers_uploaded_evidence(
    evidence: Seq<char>,
    timestamp: int,
    answer: Result<QueryReturnData, ServiceError>,
)
    requires
        !evidence.contains('&'),
        query_answer_matches(Some(encode_utf8(upload_text(evidence, timestamp))), answer),
    ensures
        evidence_readable(encode_utf8(upload_text(evidence, timestamp))),
        answer matches Ok(d) && d.rescode == 1 && d.data.evidence@ == evidence,
{
    lemma_evidence_round_trip(evidence, timestamp);
}

/// An upload is authorized exactly when a user was found and the request's
/// signature is the hexadecimal HMAC-SHA256, under the last found user's key,
/// of the upload message, whatever characters the evidence holds.
pub proof fn law_upload_authorized_iff_signed(user_hashes: Seq<String>, upload: UploadData)
    ensures
        upload_authorized(user_hashes, upload) <==> (user_hashes.len() > 0 && upload.signature@
            == hex_lower(
            hmac_sha256(
                encode_utf8(user_hashes.last()@),
                encode_utf8(upload_text(upload.evidence@, upload.timestamp as int)),
            ),
        )),
{
}

/// A query is authorized exactly when a user was found and the request's
/// signature is the hexadecimal HMAC-SHA256, under the last found user's key,
/// of the query message, whatever the transaction hash.
pub proof fn law_query_authorized_iff_signed(user_hashes: Seq<String>, query: QueryData)
    ensures
        query_authorized(user_hashes, query) <==> (user_hashes.len() > 0 && query.signature@
            == hex_lower(
            hmac_sha256(
                encode_utf8(user_hashes.last()@),
                encode_utf8(query_text(query.txid@, query.timestamp as int)),
            ),
        )),
{
}

/// A reply about the transaction of any upload, whatever the length of its
/// payload, is readable and answered with exactly the uploaded evidence, for
/// evidence without `&`.
pub proof fn law_query_reply_reads_back_any_upload(
    response: Seq<char>,
    evidence: Seq<char>,
    timestamp: int,
    answer: Result<QueryReturnData, ServiceError>,
)
    requires
        reply_payload(response) == Some(Some(encode_utf8(upload_text(evidence, timestamp)))),
        !evidence.contains('&'),
    ensures
        query_reply_readable(response),
        query_answer_matches(reply_payload(response)->Some_0, answer) ==> (answer matches Ok(d)
            && d.rescode == 1 && d.resmsg@ == success_text() && d.data.evidence@ == evidence),
{
    lemma_evidence_round_trip(evidence, timestamp);
}

} // verus!
