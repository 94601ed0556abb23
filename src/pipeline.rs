//! The request pipeline: the checks in order, the first failure decides;
//! an accepted payload becomes one event for the bus, and every outcome
//! maps to a status and a small JSON body.
use vstd::prelude::*;
use vstd::string::StringExecFns;
use crate::freshness::{fresh_with, is_fresh_with, is_request_new_enough};
use crate::payload::{canonical, canonical_json, json_str_of, json_string, SharedSecret, WebhookPayload};
use crate::signature::{expected_signature, verify_signature};

verus! {

/// Why a request was turned away.
#[derive(Clone, Copy, Debug, PartialEq, Eq, Structural)]
pub enum RejectReason {
    MissingSignatureHeader,
    MalformedPayload,
    Stale,
    SignatureMismatch,
}

/// What becomes of one request: all or nothing.
#[derive(Clone, Copy, Debug, PartialEq, Eq, Structural)]
pub enum VerificationOutcome {
    Accepted,
    Rejected(RejectReason),
}

/// One event for the bus.
pub struct BusEvent {
    pub source: String,
    pub detail_type: String,
    pub detail: String,
    pub event_bus_name: String,
}

/// The HTTP answer: a status and a JSON body `{"message": ...}`.
pub struct Reply {
    pub status: u16,
    pub body: String,
}

/// What to do with one request: forward at most one event, then reply.
/// Should the bus refuse the event, the request fails instead of replying.
pub struct RequestPlan {
    pub outcome: VerificationOutcome,
    pub forward: Option<BusEvent>,
    pub reply: Reply,
}

/// The outcome of the checks in order: a missing or empty signature header first, then a payload
/// that did not parse, then staleness, then the signature itself.
pub open spec fn outcome_of(
    header: Option<String>,
    payload: Option<WebhookPayload>,
    secret: Seq<char>,
    now_ms: Option<u128>,
) -> VerificationOutcome {
    match header {
        None => VerificationOutcome::Rejected(RejectReason::MissingSignatureHeader),
        Some(h) => if h@.len() == 0 {
            VerificationOutcome::Rejected(RejectReason::MissingSignatureHeader)
        } else {
            match payload {
                None => VerificationOutcome::Rejected(RejectReason::MalformedPayload),
                Some(p) => if !fresh_with(p.publish_timestamp as int, now_ms) {
                    VerificationOutcome::Rejected(RejectReason::Stale)
                } else if h@ == expected_signature(secret, p) {
                    VerificationOutcome::Accepted
                } else {
                    VerificationOutcome::Rejected(RejectReason::SignatureMismatch)
                },
            }
        },
    }
}

/// The source label of every forwarded event.
pub open spec fn event_source() -> Seq<char> {
    "webhook"@
}

/// The type label of every forwarded event.
pub open spec fn event_detail_type() -> Seq<char> {
    "New Chat Message"@
}

/// `e` carries `p` to the bus named `bus`.
pub open spec fn event_for(e: BusEvent, p: WebhookPayload, bus: Seq<char>) -> bool {
    &&& e.source@ == event_source()
    &&& e.detail_type@ == event_detail_type()
    &&& e.detail@ == canonical(p)
    &&& e.event_bus_name@ == bus
}

/// The HTTP status for an outcome.
pub open spec fn reply_status(o: VerificationOutcome) -> u16 {
    match o {
        VerificationOutcome::Accepted => 200,
        VerificationOutcome::Rejected(_) => 403,
    }
}

/// The message for an outcome; the reasons for a refusal are not told apart.
pub open spec fn reply_message(o: VerificationOutcome) -> Seq<char> {
    match o {
        VerificationOutcome::Accepted => "Success"@,
        VerificationOutcome::Rejected(_) => "Unauthorized"@,
    }
}

/// The body `{"message": ...}` for an outcome.
pub open spec fn reply_body(o: VerificationOutcome) -> Seq<char> {
    "{\"message\":"@ + json_str_of(reply_message(o)) + "}"@
}

/// `plan` is what the pipeline does with the request at the clock reading
/// `now_ms`: the outcome, one event exactly when accepted, and the reply.
pub open spec fn plan_for(
    plan: RequestPlan,
    header: Option<String>,
    payload: Option<WebhookPayload>,
    secret: Seq<char>,
    bus: Seq<char>,
    now_ms: Option<u128>,
) -> bool {
    &&& plan.outcome == outcome_of(header, payload, secret, now_ms)
    &&& plan.forward.is_some() == (plan.outcome == VerificationOutcome::Accepted)
    &&& plan.forward.is_some() ==> event_for(plan.forward.unwrap(), payload.unwrap(), bus)
    &&& plan.reply.status == reply_status(plan.outcome)
    &&& plan.reply.body@ == reply_body(plan.outcome)
}

/// The outcome on a request at the clock reading `now_ms`.
pub fn assess_request_at(
    header: &Option<String>,
    payload: &Option<WebhookPayload>,
    secret: &SharedSecret,
    now_ms: Option<u128>,
) -> (r: VerificationOutcome)
    ensures
        r == outcome_of(*header, *payload, secret.value@, now_ms),
{
    match header {
        None => VerificationOutcome::Rejected(RejectReason::MissingSignatureHeader),
        Some(h) => if h.as_str().is_empty() {
            VerificationOutcome::Rejected(RejectReason::MissingSignatureHeader)
        } else {
            match payload {
                None => VerificationOutcome::Rejected(RejectReason::MalformedPayload),
                Some(p) => if !is_fresh_with(p.publish_timestamp, now_ms) {
                    VerificationOutcome::Rejected(RejectReason::Stale)
                } else if verify_signature(p, secret, h.as_str()) {
                    VerificationOutcome::Accepted
                } else {
                    VerificationOutcome::Rejected(RejectReason::SignatureMismatch)
                },
            }
        },
    }
}

/// The outcome on a request now: the same checks, with freshness judged at the
/// current time. Whatever the clock reads, the outcome is the pipeline's at
/// some reading.
pub fn assess_request(
    header: &Option<String>,
    payload: &Option<WebhookPayload>,
    secret: &SharedSecret,
) -> (r: VerificationOutcome)
    ensures
        exists|now_ms: Option<u128>| r == outcome_of(*header, *payload, secret.value@, now_ms),
{
    match header {
        None => {
            let r = VerificationOutcome::Rejected(RejectReason::MissingSignatureHeader);
            assert(r == outcome_of(*header, *payload, secret.value@, None));
            r
        },
        Some(h) => if h.as_str().is_empty() {
            let r = VerificationOutcome::Rejected(RejectReason::MissingSignatureHeader);
            assert(r == outcome_of(*header, *payload, secret.value@, None));
            r
        } else {
            match payload {
                None => {
                    let r = VerificationOutcome::Rejected(RejectReason::MalformedPayload);
                    assert(r == outcome_of(*header, *payload, secret.value@, None));
                    r
                },
                Some(p) => {
                    let fresh = is_request_new_enough(p.publish_timestamp);
                    let ghost now_ms = choose|n: Option<u128>|
                        fresh == fresh_with(p.publish_timestamp as int, n);
                    let r = if !fresh {
                        VerificationOutcome::Rejected(RejectReason::Stale)
                    } else if verify_signature(p, secret, h.as_str()) {
                        VerificationOutcome::Accepted
                    } else {
                        VerificationOutcome::Rejected(RejectReason::SignatureMismatch)
                    };
                    assert(r == outcome_of(*header, *payload, secret.value@, now_ms));
                    r
                },
            }
        },
    }
}

/// The event that carries `payload` to the bus named `bus_name`: fixed
/// source and type labels, the canonical encoding as its detail.
pub fn bus_event(payload: &WebhookPayload, bus_name: &str) -> (r: BusEvent)
    ensures
        event_for(r, *payload, bus_name@),
{
    BusEvent {
        source: "webhook".to_owned(),
        detail_type: "New Chat Message".to_owned(),
        detail: canonical_json(payload),
        event_bus_name: bus_name.to_owned(),
    }
}

/// The reply for an outcome: 200 and "Success" when accepted, else 403 and
/// "Unauthorized", whatever the reason.
pub fn reply_for(outcome: VerificationOutcome) -> (r: Reply)
    ensures
        r.status == reply_status(outcome),
        r.body@ == reply_body(outcome),
{
    let (status, message): (u16, &str) = match outcome {
        VerificationOutcome::Accepted => (200, "Success"),
        VerificationOutcome::Rejected(_) => (403, "Unauthorized"),
    };
    let mut body = "{\"message\":".to_owned();
    body.append(json_string(message).as_str());
    body.append("}");
    Reply { status, body }
}

/// The event to forward, if any, and the reply, for a settled outcome.
fn plan_from_outcome(
    outcome: VerificationOutcome,
    payload: &Option<WebhookPayload>,
    bus_name: &str,
) -> (r: RequestPlan)
    requires
        outcome == VerificationOutcome::Accepted ==> payload.is_some(),
    ensures
        r.outcome == outcome,
        r.forward.is_some() == (outcome == VerificationOutcome::Accepted),
        r.forward.is_some() ==> event_for(r.forward.unwrap(), payload.unwrap(), bus_name@),
        r.reply.status == reply_status(outcome),
        r.reply.body@ == reply_body(outcome),
{
    let forward = match outcome {
        VerificationOutcome::Accepted => match payload {
            Some(p) => Some(bus_event(p, bus_name)),
            None => None,
        },
        VerificationOutcome::Rejected(_) => None,
    };
    RequestPlan { outcome, forward, reply: reply_for(outcome) }
}

/// What to do with a request at the clock reading `now_ms`.
pub fn plan_request_at(
    header: &Option<String>,
    payload: &Option<WebhookPayload>,
    secret: &SharedSecret,
    bus_name: &str,
    now_ms: Option<u128>,
) -> (r: RequestPlan)
    ensures
        plan_for(r, *header, *payload, secret.value@, bus_name@, now_ms),
{
    let outcome = assess_request_at(header, payload, secret, now_ms);
    plan_from_outcome(outcome, payload, bus_name)
}

/// What to do with a request now: the plan at some clock reading.
pub fn handle_request(
    header: &Option<String>,
    payload: &Option<WebhookPayload>,
    secret: &SharedSecret,
    bus_name: &str,
) -> (r: RequestPlan)
    ensures
        exists|now_ms: Option<u128>|
            plan_for(r, *header, *payload, secret.value@, bus_name@, now_ms),
{
    let outcome = assess_request(header, payload, secret);
    let ghost now_ms = choose|n: Option<u128>|
        outcome == outcome_of(*header, *payload, secret.value@, n);
    let r = plan_from_outcome(outcome, payload, bus_name);
    assert(plan_for(r, *header, *payload, secret.value@, bus_name@, now_ms));
    r
}

/// A payload signed with the current secret and published no more than 59
/// seconds before the clock reading (or after it) is accepted: exactly one
/// event goes to the bus, its detail is the canonical encoding that the
/// signature covers, and the reply is 200 with "Success".
pub proof fn lemma_signed_fresh_payload_is_forwarded(
    header: String,
    p: WebhookPayload,
    secret: Seq<char>,
    bus: Seq<char>,
    now_ms: u128,
    plan: RequestPlan,
)
    requires
        header@.len() > 0,
        header@ == expected_signature(secret, p),
        now_ms - p.publish_timestamp <= 59000,
        plan_for(plan, Some(header), Some(p), secret, bus, Some(now_ms)),
    ensures
        plan.outcome == VerificationOutcome::Accepted,
        plan.forward.is_some(),
        plan.forward.unwrap().detail@ == canonical(p),
        plan.reply.status == 200,
        plan.reply.body@ == reply_body(VerificationOutcome::Accepted),
{
}

/// Without a signature header the request is refused with 403 and nothing
/// is forwarded, whatever the payload, the secret or the clock.
pub proof fn lemma_missing_header_is_refused(
    payload: Option<WebhookPayload>,
    secret: Seq<char>,
    bus: Seq<char>,
    now_ms: Option<u128>,
    plan: RequestPlan,
)
    requires
        plan_for(plan, None, payload, secret, bus, now_ms),
    ensures
        plan.outcome == VerificationOutcome::Rejected(RejectReason::MissingSignatureHeader),
        plan.forward.is_none(),
        plan.reply.status == 403,
{
}

/// A signature that is not the HMAC of the canonical encoding under the
/// secret gets 403 and nothing is forwarded, whatever the clock.
pub proof fn lemma_wrong_signature_is_refused(
    header: String,
    p: WebhookPayload,
    secret: Seq<char>,
    bus: Seq<char>,
    now_ms: Option<u128>,
    plan: RequestPlan,
)
    requires
        header@ != expected_signature(secret, p),
        plan_for(plan, Some(header), Some(p), secret, bus, now_ms),
    ensures
        plan.outcome != VerificationOutcome::Accepted,
        plan.forward.is_none(),
        plan.reply.status == 403,
{
}

/// A payload published 61 seconds or more before the clock reading gets 403
/// and nothing is forwarded, even under a valid signature.
pub proof fn lemma_stale_payload_is_refused(
    header: Option<String>,
    p: WebhookPayload,
    secret: Seq<char>,
    bus: Seq<char>,
    now_ms: u128,
    plan: RequestPlan,
)
    requires
        now_ms - p.publish_timestamp >= 61000,
        plan_for(plan, header, Some(p), secret, bus, Some(now_ms)),
    ensures
        plan.outcome != VerificationOutcome::Accepted,
        plan.forward.is_none(),
        plan.reply.status == 403,
{
}

} // verus!
