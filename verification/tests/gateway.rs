//! End-to-end exercises of the gateway core: the error taxonomy, the
//! submission decoder, the correlation table, the retry policy, and the
//! JSON error bodies.

use sawtooth_rest_api::decode::{
    batch_status_id_query, batch_statuses_post, check_resource_id, receipt_id_query,
    submit_batches, validate_state_address, BackendRequest,
};
use sawtooth_rest_api::dispatch::{
    backoff_delay, reply_status, run_attempts, BackendStatus, PendingTable, RetryPolicy,
};
use sawtooth_rest_api::envelope::parse_batch_list;
use sawtooth_rest_api::errors::{RestApiError, RestApiErrorKind};
use sawtooth_rest_api::handlers::submission_outcome;
use sawtooth_rest_api::json::render_error_body;
use sawtooth_rest_api::{ProtoBufConfig, MAX_SIZE_DEFAULT};

fn all_kinds() -> Vec<RestApiErrorKind> {
    vec![
        RestApiErrorKind::BadProtobufSubmitted,
        RestApiErrorKind::BatchNotFound,
        RestApiErrorKind::BatchQueueFull,
        RestApiErrorKind::BlockNotFound,
        RestApiErrorKind::CountInvalid,
        RestApiErrorKind::HeadNotFound,
        RestApiErrorKind::InvalidResourceId,
        RestApiErrorKind::InvalidStateAddress,
        RestApiErrorKind::NoBatchesSubmitted,
        RestApiErrorKind::PagingInvalid,
        RestApiErrorKind::ReceiptBodyInvalid,
        RestApiErrorKind::ReceiptIdQueryInvalid,
        RestApiErrorKind::ReceiptNotFound,
        RestApiErrorKind::ReceiptWrongContentType,
        RestApiErrorKind::ResourceHeaderInvalid,
        RestApiErrorKind::SendBackoffTimeout,
        RestApiErrorKind::SortInvalid,
        RestApiErrorKind::StateNotFound,
        RestApiErrorKind::StatusBodyInvalid,
        RestApiErrorKind::StatusIdQueryInvalid,
        RestApiErrorKind::StatusResponseMissing,
        RestApiErrorKind::StatusWrongContentType,
        RestApiErrorKind::SubmissionTooLarge,
        RestApiErrorKind::SubmissionWrongContentType,
        RestApiErrorKind::SubmittedBatchesInvalid,
        RestApiErrorKind::TransactionNotFound,
        RestApiErrorKind::UnknownValidator,
        RestApiErrorKind::ValidatorDisconnected,
        RestApiErrorKind::ValidatorNotReady,
        RestApiErrorKind::ValidatorResponseInvalid,
        RestApiErrorKind::ValidatorTimedOut,
    ]
}

fn envelope_bytes(batches: &[(&str, &[u8])]) -> Vec<u8> {
    let mut bytes = Vec::new();
    bytes.extend_from_slice(&(batches.len() as u32).to_be_bytes());
    for (id, payload) in batches {
        bytes.extend_from_slice(&(id.len() as u32).to_be_bytes());
        bytes.extend_from_slice(id.as_bytes());
        bytes.extend_from_slice(&(payload.len() as u32).to_be_bytes());
        bytes.extend_from_slice(payload);
    }
    bytes
}

fn valid_id() -> String {
    "ab01".repeat(32)
}

const OCTET_STREAM: &str = "application/octet-stream";

#[test]
fn api_codes_are_unique_and_lookup_is_total() {
    let kinds = all_kinds();
    for (i, a) in kinds.iter().enumerate() {
        // Totality: every member renders without panicking.
        let status = a.status_code();
        assert!((400..=503).contains(&status));
        assert!(!a.title().is_empty());
        assert!(!a.message().is_empty());
        for (j, b) in kinds.iter().enumerate() {
            if i != j {
                assert_ne!(a.api_code(), b.api_code(), "{:?} and {:?} share a code", a, b);
            }
        }
    }
}

#[test]
fn taxonomy_registrations_are_stable() {
    assert_eq!(RestApiErrorKind::NoBatchesSubmitted.api_code(), 34);
    assert_eq!(RestApiErrorKind::BatchQueueFull.api_code(), 31);
    assert_eq!(RestApiErrorKind::BatchQueueFull.status_code(), 429);
    assert_eq!(RestApiErrorKind::ValidatorTimedOut.api_code(), 17);
    assert_eq!(RestApiErrorKind::ValidatorTimedOut.status_code(), 503);
    assert_eq!(RestApiErrorKind::ValidatorDisconnected.api_code(), 18);
    assert_eq!(RestApiErrorKind::InvalidResourceId.api_code(), 60);
    assert_eq!(RestApiErrorKind::SubmissionWrongContentType.status_code(), 400);
    assert_eq!(RestApiErrorKind::UnknownValidator.status_code(), 500);
    assert_eq!(RestApiErrorKind::ValidatorNotReady.status_code(), 503);
    assert_eq!(RestApiErrorKind::BatchNotFound.title(), "Batch Not Found");
}

#[test]
fn oversized_body_is_rejected_before_decoding() {
    // A valid envelope over the ceiling: the size rule fires first, so the
    // decoder is never consulted.
    let id = valid_id();
    let body = envelope_bytes(&[(&id, &[0u8; 64][..])]);
    let max = body.len() - 1;
    let decoded = submit_batches(OCTET_STREAM, body, max);
    match decoded {
        Err(e) => {
            assert_eq!(e.kind, RestApiErrorKind::SubmissionTooLarge);
            assert!(e.info.is_none());
        }
        Ok(_) => panic!("oversized body accepted"),
    }
    // Garbage over the ceiling gives the same answer: the content never matters.
    let garbage = vec![0xffu8; 32];
    let decoded = submit_batches(OCTET_STREAM, garbage, 16);
    match decoded {
        Err(e) => assert_eq!(e.kind, RestApiErrorKind::SubmissionTooLarge),
        Ok(_) => panic!("oversized body accepted"),
    }
}

#[test]
fn wrong_content_type_is_rejected_whatever_the_body() {
    let id = valid_id();
    let good_body = envelope_bytes(&[(&id, &[1u8, 2, 3][..])]);
    let decoded = submit_batches("text/plain", good_body, MAX_SIZE_DEFAULT);
    match decoded {
        Err(e) => {
            assert_eq!(e.kind, RestApiErrorKind::SubmissionWrongContentType);
            assert!(e.info.is_none());
        }
        Ok(_) => panic!("wrong content type accepted"),
    }
    let decoded = submit_batches("application/json", vec![1, 2, 3], MAX_SIZE_DEFAULT);
    match decoded {
        Err(e) => assert_eq!(e.kind, RestApiErrorKind::SubmissionWrongContentType),
        Ok(_) => panic!("wrong content type accepted"),
    }
}

#[test]
fn empty_batch_list_is_rejected() {
    let body = envelope_bytes(&[]);
    let decoded = submit_batches(OCTET_STREAM, body, MAX_SIZE_DEFAULT);
    match decoded {
        Err(e) => {
            assert_eq!(e.kind, RestApiErrorKind::NoBatchesSubmitted);
            assert!(e.info.is_none());
        }
        Ok(_) => panic!("empty batch list accepted"),
    }
}

#[test]
fn malformed_envelope_is_rejected() {
    // Truncated: claims one batch but holds nothing.
    let body = vec![0u8, 0, 0, 1];
    let decoded = submit_batches(OCTET_STREAM, body, MAX_SIZE_DEFAULT);
    match decoded {
        Err(e) => assert_eq!(e.kind, RestApiErrorKind::BadProtobufSubmitted),
        Ok(_) => panic!("malformed envelope accepted"),
    }
    // Trailing bytes after the last batch.
    let id = valid_id();
    let mut body = envelope_bytes(&[(&id, &[][..])]);
    body.push(0);
    let decoded = submit_batches(OCTET_STREAM, body, MAX_SIZE_DEFAULT);
    match decoded {
        Err(e) => assert_eq!(e.kind, RestApiErrorKind::BadProtobufSubmitted),
        Ok(_) => panic!("trailing bytes accepted"),
    }
    // An id field with a byte outside ASCII is refused by the grammar.
    let body = envelope_bytes(&[("caf\u{e9}", &[][..])]);
    let decoded = submit_batches(OCTET_STREAM, body, MAX_SIZE_DEFAULT);
    match decoded {
        Err(e) => assert_eq!(e.kind, RestApiErrorKind::BadProtobufSubmitted),
        Ok(_) => panic!("non-ASCII id accepted"),
    }
}

#[test]
fn uppercase_hex_id_is_an_invalid_resource_id() {
    let shouting = valid_id().to_uppercase();
    let body = envelope_bytes(&[(&shouting, &[][..])]);
    let decoded = submit_batches(OCTET_STREAM, body, MAX_SIZE_DEFAULT);
    match decoded {
        Err(e) => {
            assert_eq!(e.kind, RestApiErrorKind::InvalidResourceId);
            assert_eq!(e.info.as_deref(), Some(shouting.as_str()));
        }
        Ok(_) => panic!("uppercase id accepted"),
    }
}

#[test]
fn valid_submission_is_forwarded_unchanged() {
    let id = valid_id();
    let body = envelope_bytes(&[(&id, &[9u8, 8, 7][..]), (&id, &[][..])]);
    let copy = body.clone();
    let decoded = submit_batches(OCTET_STREAM, body, MAX_SIZE_DEFAULT);
    match decoded {
        Ok(BackendRequest::SubmitBatches { envelope }) => assert_eq!(envelope, copy),
        _ => panic!("valid submission rejected"),
    }
    let batches = parse_batch_list(&copy).expect("envelope parses");
    assert_eq!(batches.len(), 2);
    assert_eq!(batches[0].payload, vec![9u8, 8, 7]);
    assert_eq!(batches[0].id, valid_id().into_bytes());
}

#[test]
fn invalid_batch_id_is_reported_with_detail() {
    let good = valid_id();
    let bad = "XYZ";
    let body = envelope_bytes(&[(&good, &[][..]), (bad, &[][..])]);
    let decoded = submit_batches(OCTET_STREAM, body, MAX_SIZE_DEFAULT);
    match decoded {
        Err(e) => {
            assert_eq!(e.kind, RestApiErrorKind::InvalidResourceId);
            assert_eq!(e.info.as_deref(), Some(bad));
            let resp = e.to_response();
            assert!(resp.message.ends_with(bad));
            assert!(resp.message.starts_with(RestApiErrorKind::InvalidResourceId.message()));
        }
        Ok(_) => panic!("invalid id accepted"),
    }
}

#[test]
fn resource_id_shape_is_checked() {
    assert!(check_resource_id(&valid_id().into_bytes()));
    assert!(!check_resource_id(&b"ab01".to_vec()));
    let mut wrong = valid_id().into_bytes();
    wrong[5] = b'G';
    assert!(!check_resource_id(&wrong));
}

#[test]
fn timeout_and_response_race_resolves_exactly_once() {
    let mut table = PendingTable::new();
    let first = table.dispatch().expect("id minted");
    let second = table.dispatch().expect("id minted");
    assert_ne!(first, second);
    // The timeout commits first: the caller is woken with ValidatorTimedOut.
    assert!(table.take_for_timeout(first));
    // The late response finds nothing and is discarded; the other caller's
    // entry is untouched.
    assert!(!table.take_for_response(first));
    assert!(table.is_pending(second));
    assert!(table.take_for_response(second));
    assert_eq!(table.pending_count(), 0);
}

#[test]
fn disconnect_fails_every_pending_request_and_clears_the_table() {
    let mut table = PendingTable::new();
    let mut minted = Vec::new();
    for _ in 0..3 {
        minted.push(table.dispatch().expect("id minted"));
    }
    let failed = table.disconnect();
    assert_eq!(failed.len(), 3);
    for (i, (id, err)) in failed.iter().enumerate() {
        assert_eq!(*id, minted[i]);
        assert_eq!(err.kind, RestApiErrorKind::ValidatorDisconnected);
        assert!(err.info.is_none());
    }
    assert_eq!(table.pending_count(), 0);
    for id in minted {
        assert!(!table.is_pending(id));
    }
    // Ids minted after the sweep are still fresh.
    let next = table.dispatch().expect("id minted");
    assert_eq!(table.pending_count(), 1);
    assert!(table.is_pending(next));
}

#[test]
fn queue_full_twice_then_success_backs_off_and_delivers() {
    let policy = RetryPolicy { max_attempts: 3, base_backoff_ms: 100, timeout_per_attempt_ms: 300000 };
    let statuses = vec![BackendStatus::QueueFull, BackendStatus::QueueFull, BackendStatus::Accepted];
    let outcome = run_attempts(&policy, &statuses);
    assert!(outcome.delivered);
    assert_eq!(outcome.failure, None);
    assert_eq!(outcome.attempts_made, 3);
    assert!(outcome.total_backoff_ms >= 100 + 200);
    assert_eq!(outcome.total_backoff_ms, 300);
    let answer = submission_outcome(&policy, &statuses);
    assert_eq!(answer.map_err(|e| e.kind), Ok(202));
}

#[test]
fn exhausted_retries_surface_the_capacity_kind() {
    let policy = RetryPolicy { max_attempts: 3, base_backoff_ms: 100, timeout_per_attempt_ms: 300000 };
    let statuses = vec![BackendStatus::QueueFull, BackendStatus::QueueFull, BackendStatus::QueueFull];
    let outcome = run_attempts(&policy, &statuses);
    assert!(!outcome.delivered);
    assert_eq!(outcome.failure, Some(RestApiErrorKind::BatchQueueFull));
    assert_eq!(outcome.attempts_made, 3);
    assert_eq!(outcome.total_backoff_ms, 300);

    let statuses = vec![BackendStatus::NotReady; 3];
    let outcome = run_attempts(&policy, &statuses);
    assert_eq!(outcome.failure, Some(RestApiErrorKind::ValidatorNotReady));

    // Non-transient failures surface at once, with no backoff.
    let statuses = vec![BackendStatus::InternalError, BackendStatus::Accepted, BackendStatus::Accepted];
    let outcome = run_attempts(&policy, &statuses);
    assert_eq!(outcome.failure, Some(RestApiErrorKind::UnknownValidator));
    assert_eq!(outcome.attempts_made, 1);
    assert_eq!(outcome.total_backoff_ms, 0);
}

#[test]
fn reply_tags_outside_the_protocol_are_invalid_responses() {
    assert_eq!(reply_status(0).ok(), Some(BackendStatus::Accepted));
    assert_eq!(reply_status(2).ok(), Some(BackendStatus::QueueFull));
    assert_eq!(reply_status(4).ok(), Some(BackendStatus::InvalidInput));
    match reply_status(9) {
        Err(e) => {
            assert_eq!(e.kind, RestApiErrorKind::ValidatorResponseInvalid);
            assert!(e.info.is_none());
        }
        Ok(_) => panic!("unknown tag accepted"),
    }
}

#[test]
fn backoff_doubles_and_is_capped() {
    assert_eq!(backoff_delay(100, 0), 100);
    assert_eq!(backoff_delay(100, 1), 200);
    assert_eq!(backoff_delay(100, 2), 400);
    assert_eq!(backoff_delay(100, 20), 60000);
    assert_eq!(backoff_delay(0, 9), 0);
    assert_eq!(backoff_delay(70000, 0), 60000);
}

#[test]
fn status_id_query_is_decoded_and_validated() {
    match batch_status_id_query("") {
        Err(e) => {
            assert_eq!(e.kind, RestApiErrorKind::StatusIdQueryInvalid);
            assert!(e.info.is_none());
        }
        Ok(_) => panic!("empty query accepted"),
    }
    let a = valid_id();
    let b = "00ff".repeat(32);
    let query = format!("{},{}", a, b);
    match batch_status_id_query(&query) {
        Ok(BackendRequest::BatchStatuses { batch_ids }) => {
            assert_eq!(batch_ids, vec![a.clone(), b.clone()])
        }
        _ => panic!("valid query rejected"),
    }
    let query = format!("{},nonsense,{}", a, b);
    match batch_status_id_query(&query) {
        Err(e) => {
            assert_eq!(e.kind, RestApiErrorKind::InvalidResourceId);
            assert_eq!(e.info.as_deref(), Some("nonsense"));
        }
        Ok(_) => panic!("invalid id accepted"),
    }
}

fn status_body(ids: &[&str]) -> Vec<u8> {
    let quoted: Vec<String> = ids.iter().map(|id| format!("\"{}\"", id)).collect();
    format!("{{\"batch_ids\":[{}]}}", quoted.join(",")).into_bytes()
}

const JSON: &str = "application/json";

#[test]
fn status_post_body_is_decoded_in_rule_order() {
    let a = valid_id();
    let oversized = status_body(&[&a]);
    let max = oversized.len() - 1;
    match batch_statuses_post(JSON, &oversized, max) {
        Err(e) => assert_eq!(e.kind, RestApiErrorKind::SubmissionTooLarge),
        Ok(_) => panic!("oversized status body accepted"),
    }
    match batch_statuses_post("text/plain", &status_body(&[&a]), MAX_SIZE_DEFAULT) {
        Err(e) => {
            assert_eq!(e.kind, RestApiErrorKind::StatusWrongContentType);
            assert!(e.info.is_none());
        }
        Ok(_) => panic!("wrong content type accepted"),
    }
    match batch_statuses_post(JSON, &b"[\"nope\"]".to_vec(), MAX_SIZE_DEFAULT) {
        Err(e) => assert_eq!(e.kind, RestApiErrorKind::StatusBodyInvalid),
        Ok(_) => panic!("shapeless body accepted"),
    }
    match batch_statuses_post(JSON, &status_body(&[]), MAX_SIZE_DEFAULT) {
        Err(e) => assert_eq!(e.kind, RestApiErrorKind::StatusBodyInvalid),
        Ok(_) => panic!("empty id array accepted"),
    }
    match batch_statuses_post(JSON, &b"{\"batch_ids\":[unquoted]}".to_vec(), MAX_SIZE_DEFAULT) {
        Err(e) => assert_eq!(e.kind, RestApiErrorKind::StatusBodyInvalid),
        Ok(_) => panic!("unquoted id accepted"),
    }
    let b = "00ff".repeat(32);
    match batch_statuses_post(JSON, &status_body(&[&a, &b]), MAX_SIZE_DEFAULT) {
        Ok(BackendRequest::BatchStatuses { batch_ids }) => {
            assert_eq!(batch_ids, vec![a.clone(), b.clone()])
        }
        _ => panic!("valid status body rejected"),
    }
    match batch_statuses_post(JSON, &status_body(&[&a, "short"]), MAX_SIZE_DEFAULT) {
        Err(e) => {
            assert_eq!(e.kind, RestApiErrorKind::InvalidResourceId);
            assert_eq!(e.info.as_deref(), Some("short"));
        }
        Ok(_) => panic!("invalid id accepted"),
    }
}

#[test]
fn receipt_id_query_uses_the_receipt_kind() {
    match receipt_id_query("") {
        Err(e) => {
            assert_eq!(e.kind, RestApiErrorKind::ReceiptIdQueryInvalid);
            assert!(e.info.is_none());
        }
        Ok(_) => panic!("empty query accepted"),
    }
    let a = valid_id();
    match receipt_id_query(&a) {
        Ok(BackendRequest::TransactionReceipts { transaction_ids }) => {
            assert_eq!(transaction_ids, vec![a.clone()])
        }
        _ => panic!("valid query rejected"),
    }
}

#[test]
fn state_addresses_are_checked_for_shape() {
    let good = "ab".repeat(35);
    assert!(validate_state_address(&good).is_ok());
    for bad in ["ab", &"ab".repeat(64), &format!("G{}", &good[1..])] {
        match validate_state_address(bad) {
            Err(e) => {
                assert_eq!(e.kind, RestApiErrorKind::InvalidStateAddress);
                assert_eq!(e.info.as_deref(), Some(bad));
            }
            Ok(_) => panic!("bad state address accepted"),
        }
    }
}

#[test]
fn error_bodies_round_trip_through_json() {
    for kind in all_kinds() {
        let err = RestApiError::from(kind);
        let resp = err.to_response();
        let body = render_error_body(resp.code, resp.title.as_str(), resp.message.as_str());
        let text = String::from_utf8(body).expect("body is UTF-8");
        let value: serde_json::Value = serde_json::from_str(&text).expect("body is JSON");
        assert_eq!(value["code"].as_u64(), Some(kind.api_code() as u64));
        assert_eq!(value["title"].as_str(), Some(kind.title()));
        assert_eq!(value["message"].as_str(), Some(kind.message()));
        assert!(value["message"].as_str().unwrap().starts_with(kind.message()));
    }
}

#[test]
fn detail_is_escaped_in_the_json_body() {
    let detail = "we\"ird\\id\u{1}".to_string();
    let err = RestApiError::with_info(RestApiErrorKind::InvalidResourceId, detail.clone());
    let resp = err.to_response();
    let body = render_error_body(resp.code, resp.title.as_str(), resp.message.as_str());
    let text = String::from_utf8(body).expect("body is UTF-8");
    let value: serde_json::Value = serde_json::from_str(&text).expect("body is JSON");
    let message = value["message"].as_str().expect("message is a string");
    assert!(message.starts_with(RestApiErrorKind::InvalidResourceId.message()));
    assert!(message.ends_with(&detail));
}

#[test]
fn body_size_configuration_defaults_to_ten_mebibytes() {
    let mut config = ProtoBufConfig::default();
    assert_eq!(config.client_max_size, 10485760);
    assert_eq!(config.client_max_size, MAX_SIZE_DEFAULT);
    config.client_max_size(512);
    assert_eq!(config.client_max_size, 512);
}
