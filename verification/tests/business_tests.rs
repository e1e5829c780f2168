use cita_tool::{ProtoMessage, Transaction, UnverifiedTransaction};
use evidence_store::business::{
    query_answer, query_plan, query_reply, transfer_plan, transfer_reply, upload_plan,
    upload_reply, QueryData, UploadData, STORE_ADDRESS, TRANSFER_AMOUNT, UPLOAD_AMOUNT,
};
use evidence_store::error::ServiceError;
use evidence_store::message::{payload_code, upload_message};
use hmac::{Hmac, Mac};
use sha2::Sha256;

fn sign(key: &str, msg: &str) -> String {
    let mut mac = Hmac::<Sha256>::new_varkey(key.as_bytes()).unwrap();
    mac.input(msg.as_bytes());
    hex::encode(mac.result().code())
}

fn upload(evidence: &str, timestamp: i64, signature: String) -> UploadData {
    UploadData {
        email: "a@b.c".to_string(),
        evidence: evidence.to_string(),
        timestamp,
        signature,
    }
}

fn query(txid: &str, timestamp: i64, signature: String) -> QueryData {
    QueryData {
        email: "a@b.c".to_string(),
        txid: txid.to_string(),
        timestamp,
        signature,
    }
}

fn reply_with_transaction(data: Option<&[u8]>) -> String {
    let mut utx = UnverifiedTransaction::new();
    if let Some(d) = data {
        let mut tx = Transaction::new();
        tx.set_data(d.to_vec());
        utx.set_transaction(tx);
    }
    format!(
        "{{\"content\":\"0x{}\"}}",
        hex::encode(utx.write_to_bytes().unwrap())
    )
}

#[test]
fn constants_of_the_service() {
    assert_eq!(STORE_ADDRESS, "0xffffffffffffffffffffffffffffffffff010000");
    assert_eq!(TRANSFER_AMOUNT, "1000000000000000000000");
    assert_eq!(UPLOAD_AMOUNT, "0");
}

#[test]
fn upload_plan_sends_the_signed_message() {
    let sig = sign("user-hash", "evidence=doc&timestamp=42");
    let req = upload_plan(&vec!["user-hash".to_string()], &upload("doc", 42, sig)).unwrap();
    assert_eq!(req.code, payload_code("evidence=doc&timestamp=42"));
    assert_eq!(req.code, "0x65766964656e63653d646f632674696d657374616d703d3432");
    assert_eq!(req.address, STORE_ADDRESS);
    assert_eq!(req.value, "0");
}

#[test]
fn upload_plan_uses_the_last_matching_user() {
    let sig = sign("second", "evidence=doc&timestamp=1");
    let users = vec!["first".to_string(), "second".to_string()];
    assert!(upload_plan(&users, &upload("doc", 1, sig.clone())).is_ok());
    let users = vec!["second".to_string(), "first".to_string()];
    assert_eq!(
        upload_plan(&users, &upload("doc", 1, sig)).err(),
        Some(ServiceError::Unauthorized)
    );
}

#[test]
fn upload_plan_refuses_unknown_users_and_bad_signatures() {
    let sig = sign("k", "evidence=doc&timestamp=1");
    assert_eq!(
        upload_plan(&vec![], &upload("doc", 1, sig.clone())).err(),
        Some(ServiceError::Unauthorized)
    );
    assert_eq!(
        upload_plan(&vec!["k".to_string()], &upload("doc", 2, sig)).err(),
        Some(ServiceError::Unauthorized)
    );
}

#[test]
fn query_plan_gives_the_transaction_to_fetch() {
    let sig = sign("k", "txid=0xab&timestamp=5");
    assert_eq!(
        query_plan(&vec!["k".to_string()], &query("0xab", 5, sig.clone())),
        Ok("0xab".to_string())
    );
    assert_eq!(
        query_plan(&vec![], &query("0xab", 5, sig.clone())),
        Err(ServiceError::Unauthorized)
    );
    assert_eq!(
        query_plan(&vec!["j".to_string()], &query("0xab", 5, sig)),
        Err(ServiceError::Unauthorized)
    );
}

#[test]
fn transfer_plan_needs_only_a_user() {
    let req = transfer_plan(&vec!["anything".to_string()]).unwrap();
    assert_eq!(req.code, "");
    assert_eq!(req.address, STORE_ADDRESS);
    assert_eq!(req.value, TRANSFER_AMOUNT);
    assert_eq!(transfer_plan(&vec![]).err(), Some(ServiceError::Unauthorized));
}

#[test]
fn upload_and_transfer_replies_carry_the_hash() {
    let reply = r#"{"hash":"0xfeed","status":"OK"}"#;
    let up = upload_reply(reply).unwrap();
    assert_eq!((up.rescode, up.resmsg.as_str(), up.data.txid.as_str()), (1, "Success", "0xfeed"));
    let tr = transfer_reply(reply).unwrap();
    assert_eq!((tr.rescode, tr.resmsg.as_str(), tr.data.txid.as_str()), (1, "Success", "0xfeed"));
    assert!(upload_reply("{").is_none());
    assert!(transfer_reply("x").is_none());
}

#[test]
fn query_answer_reads_the_evidence_or_refuses() {
    let answer = query_answer(Some(b"evidence=found&timestamp=9".to_vec())).unwrap();
    assert_eq!(answer.rescode, 1);
    assert_eq!(answer.resmsg, "Success");
    assert_eq!(answer.data.evidence, "found");
    assert_eq!(query_answer(None).err(), Some(ServiceError::Unauthorized));
}

#[test]
fn query_reply_reads_back_an_upload() {
    let msg = upload_message("stored text", 77);
    let reply = reply_with_transaction(Some(msg.as_bytes()));
    let answer = query_reply(&reply).unwrap().unwrap();
    assert_eq!(answer.data.evidence, "stored text");
    assert_eq!(answer.resmsg, "Success");
}

#[test]
fn query_reply_without_transaction_is_unauthorized() {
    let reply = reply_with_transaction(None);
    assert_eq!(query_reply(&reply).unwrap().err(), Some(ServiceError::Unauthorized));
}

#[test]
fn query_reply_on_unreadable_replies() {
    assert!(query_reply("nope").is_none());
    let reply = reply_with_transaction(Some(&[0xff, 0xfe]));
    assert!(query_reply(&reply).is_none());
    let reply = reply_with_transaction(Some(b"evi&"));
    assert!(query_reply(&reply).is_none());
}
