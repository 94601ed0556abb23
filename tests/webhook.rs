use hmac::Mac;
use momento_webhook::freshness::{is_fresh_at, is_fresh_with, is_request_new_enough};
use momento_webhook::payload::{canonical_json, SharedSecret, WebhookPayload};
use momento_webhook::pipeline::{
    assess_request, assess_request_at, bus_event, handle_request, plan_request_at, reply_for,
    RejectReason, VerificationOutcome,
};
use momento_webhook::signature::{bytes_equal_ct, signature_matches, verify_signature};

fn now_ms() -> i64 {
    std::time::SystemTime::now()
        .duration_since(std::time::UNIX_EPOCH)
        .unwrap()
        .as_millis() as i64
}

fn sample(publish: i64) -> WebhookPayload {
    WebhookPayload {
        cache: "c1".to_string(),
        topic: "t1".to_string(),
        event_timestamp: 1000,
        publish_timestamp: publish,
        topic_sequence_number: 1,
        token_id: None,
        text: "hi".to_string(),
    }
}

fn secret(s: &str) -> SharedSecret {
    SharedSecret { value: s.to_string() }
}

fn sign(key: &str, msg: &str) -> String {
    let mut m = hmac::Hmac::<sha3::Sha3_256>::new_from_slice(key.as_bytes()).unwrap();
    m.update(msg.as_bytes());
    hex::encode(m.finalize().into_bytes())
}

#[test]
fn fresh_just_inside_the_window() {
    assert!(is_fresh_at(1000, 60999));
    assert!(is_fresh_at(1000, 1000 + 59000));
}

#[test]
fn stale_at_exactly_sixty_seconds() {
    assert!(!is_fresh_at(1000, 61000));
    assert!(!is_fresh_at(0, 120000));
}

#[test]
fn future_publish_time_is_accepted() {
    assert!(is_fresh_at(10000, 5000));
    assert!(is_fresh_at(i64::MAX, 0));
}

#[test]
fn extreme_timestamps_do_not_overflow() {
    assert!(!is_fresh_at(i64::MIN, 0));
    assert!(!is_fresh_at(-60000, 0));
    assert!(is_fresh_at(-59999, 0));
    assert!(!is_fresh_at(0, u128::MAX));
}

#[test]
fn unreadable_clock_is_not_fresh() {
    assert!(!is_fresh_with(1000, None));
    assert!(is_fresh_with(1000, Some(2000)));
}

#[test]
fn gate_against_the_real_clock() {
    assert!(is_request_new_enough(now_ms() - 5000));
    assert!(is_request_new_enough(now_ms() + 100000));
    assert!(!is_request_new_enough(now_ms() - 61000));
}

#[test]
fn canonical_encoding_exact_text() {
    let p = sample(2000);
    assert_eq!(
        canonical_json(&p),
        "{\"cache\":\"c1\",\"topic\":\"t1\",\"event_timestamp\":1000,\"publish_timestamp\":2000,\"topic_sequence_number\":1,\"token_id\":null,\"text\":\"hi\"}"
    );
}

#[test]
fn canonical_encoding_escapes_and_negatives() {
    let p = WebhookPayload {
        cache: "a\"b".to_string(),
        topic: "x\\y".to_string(),
        event_timestamp: -5,
        publish_timestamp: i64::MIN,
        topic_sequence_number: 0,
        token_id: Some("tok\n".to_string()),
        text: "h\u{e9}".to_string(),
    };
    assert_eq!(
        canonical_json(&p),
        "{\"cache\":\"a\\\"b\",\"topic\":\"x\\\\y\",\"event_timestamp\":-5,\"publish_timestamp\":-9223372036854775808,\"topic_sequence_number\":0,\"token_id\":\"tok\\n\",\"text\":\"h\u{e9}\"}"
    );
}

#[test]
fn canonical_encoding_is_deterministic() {
    let p = sample(123456);
    let q = sample(123456);
    assert_eq!(canonical_json(&p), canonical_json(&p));
    assert_eq!(canonical_json(&p), canonical_json(&q));
}

#[test]
fn constant_time_comparison() {
    assert!(bytes_equal_ct(b"abc", b"abc"));
    assert!(bytes_equal_ct(b"", b""));
    assert!(!bytes_equal_ct(b"abc", b"abd"));
    assert!(!bytes_equal_ct(b"abc", b"ab"));
    assert!(!bytes_equal_ct(b"xbc", b"abc"));
}

#[test]
fn signature_is_lowercase_hex_of_digest() {
    let digest = [0x00u8, 0xff, 0x1a];
    assert!(signature_matches(&digest, "00ff1a"));
    assert!(!signature_matches(&digest, "00FF1A"));
    assert!(!signature_matches(&digest, "00ff1"));
    assert!(!signature_matches(&digest, "00ff1b"));
    assert!(signature_matches(&[], ""));
}

#[test]
fn verify_signature_matches_independent_hmac() {
    let p = sample(2000);
    let key = secret("s3cr3t");
    let sig = sign("s3cr3t", &canonical_json(&p));
    assert_eq!(sig.len(), 64);
    assert!(verify_signature(&p, &key, &sig));
    assert!(!verify_signature(&p, &secret("other"), &sig));
    assert!(!verify_signature(&sample(2001), &key, &sig));
    assert!(!verify_signature(&p, &key, &sig.to_uppercase()));
}

#[test]
fn signed_fresh_payload_is_forwarded() {
    let p = sample(now_ms() - 5000);
    let detail = canonical_json(&p);
    let sig = sign("s3cr3t", &detail);
    let plan = handle_request(&Some(sig), &Some(p), &secret("s3cr3t"), "bus-1");
    assert_eq!(plan.outcome, VerificationOutcome::Accepted);
    assert_eq!(plan.reply.status, 200);
    assert_eq!(plan.reply.body, "{\"message\":\"Success\"}");
    let event = plan.forward.expect("one event");
    assert_eq!(event.source, "webhook");
    assert_eq!(event.detail_type, "New Chat Message");
    assert_eq!(event.detail, detail);
    assert_eq!(event.event_bus_name, "bus-1");
}

#[test]
fn missing_header_is_refused() {
    let p = sample(now_ms());
    let plan = handle_request(&None, &Some(p), &secret("s3cr3t"), "bus-1");
    assert_eq!(
        plan.outcome,
        VerificationOutcome::Rejected(RejectReason::MissingSignatureHeader)
    );
    assert_eq!(plan.reply.status, 403);
    assert_eq!(plan.reply.body, "{\"message\":\"Unauthorized\"}");
    assert!(plan.forward.is_none());
}

#[test]
fn empty_header_counts_as_missing() {
    let p = sample(now_ms());
    let r = assess_request(&Some(String::new()), &Some(p), &secret("s3cr3t"));
    assert_eq!(r, VerificationOutcome::Rejected(RejectReason::MissingSignatureHeader));
}

#[test]
fn unparsed_payload_is_refused() {
    let plan = handle_request(&Some("00".to_string()), &None, &secret("s3cr3t"), "bus-1");
    assert_eq!(plan.outcome, VerificationOutcome::Rejected(RejectReason::MalformedPayload));
    assert_eq!(plan.reply.status, 403);
    assert!(plan.forward.is_none());
}

#[test]
fn wrong_signature_is_refused() {
    let p = sample(now_ms() - 1000);
    let sig = sign("not-the-secret", &canonical_json(&p));
    let plan = handle_request(&Some(sig), &Some(p), &secret("s3cr3t"), "bus-1");
    assert_eq!(plan.outcome, VerificationOutcome::Rejected(RejectReason::SignatureMismatch));
    assert_eq!(plan.reply.status, 403);
    assert_eq!(plan.reply.body, "{\"message\":\"Unauthorized\"}");
    assert!(plan.forward.is_none());
}

#[test]
fn stale_payload_with_valid_signature_is_refused() {
    let p = sample(now_ms() - 61000);
    let sig = sign("s3cr3t", &canonical_json(&p));
    assert!(verify_signature(&p, &secret("s3cr3t"), &sig));
    let plan = handle_request(&Some(sig), &Some(p), &secret("s3cr3t"), "bus-1");
    assert_eq!(plan.outcome, VerificationOutcome::Rejected(RejectReason::Stale));
    assert_eq!(plan.reply.status, 403);
    assert!(plan.forward.is_none());
}

#[test]
fn plan_at_fixed_clock() {
    let p = sample(100000);
    let sig = sign("s3cr3t", &canonical_json(&p));
    let key = secret("s3cr3t");
    let ok = plan_request_at(&Some(sig.clone()), &Some(sample(100000)), &key, "b", Some(159000));
    assert_eq!(ok.outcome, VerificationOutcome::Accepted);
    assert!(ok.forward.is_some());
    let late = plan_request_at(&Some(sig.clone()), &Some(sample(100000)), &key, "b", Some(161000));
    assert_eq!(late.outcome, VerificationOutcome::Rejected(RejectReason::Stale));
    assert!(late.forward.is_none());
    let no_clock = assess_request_at(&Some(sig), &Some(p), &key, None);
    assert_eq!(no_clock, VerificationOutcome::Rejected(RejectReason::Stale));
}

#[test]
fn forwarded_detail_parses_back_to_the_payload() {
    let p = WebhookPayload {
        cache: "c\"1".to_string(),
        topic: "t1".to_string(),
        event_timestamp: 42,
        publish_timestamp: 43,
        topic_sequence_number: 7,
        token_id: Some("tok".to_string()),
        text: "line\nnext".to_string(),
    };
    let event = bus_event(&p, "bus");
    let v: serde_json::Value = serde_json::from_str(&event.detail).unwrap();
    assert_eq!(v["cache"].as_str(), Some("c\"1"));
    assert_eq!(v["topic"].as_str(), Some("t1"));
    assert_eq!(v["event_timestamp"].as_i64(), Some(42));
    assert_eq!(v["publish_timestamp"].as_i64(), Some(43));
    assert_eq!(v["topic_sequence_number"].as_i64(), Some(7));
    assert_eq!(v["token_id"].as_str(), Some("tok"));
    assert_eq!(v["text"].as_str(), Some("line\nnext"));
    assert_eq!(v.as_object().map(|o| o.len()), Some(7));
}

#[test]
fn reply_bodies() {
    let ok = reply_for(VerificationOutcome::Accepted);
    assert_eq!(ok.status, 200);
    assert_eq!(ok.body, "{\"message\":\"Success\"}");
    let no = reply_for(VerificationOutcome::Rejected(RejectReason::Stale));
    assert_eq!(no.status, 403);
    assert_eq!(no.body, "{\"message\":\"Unauthorized\"}");
}

#[test]
fn concrete_scenario_s3cr3t() {
    let p = WebhookPayload {
        cache: "c1".to_string(),
        topic: "t1".to_string(),
        event_timestamp: 1000,
        publish_timestamp: now_ms() - 5000,
        topic_sequence_number: 1,
        token_id: None,
        text: "hi".to_string(),
    };
    let sig = sign("s3cr3t", &canonical_json(&p));
    let plan = handle_request(&Some(sig), &Some(p), &secret("s3cr3t"), "events");
    assert_eq!(plan.reply.status, 200);
    assert_eq!(plan.reply.body, "{\"message\":\"Success\"}");
    assert!(plan.forward.is_some());
}
