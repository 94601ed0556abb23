//! The webhook payload, the shared secret, and the canonical JSON encoding
//! that the signer and this library must agree on byte for byte.
use vstd::prelude::*;
use vstd::string::StringExecFns;

verus! {

/// The body of one webhook notification. It is never changed between
/// verification and forwarding: what is checked is what is sent on.
pub struct WebhookPayload {
    pub cache: String,
    pub topic: String,
    /// Milliseconds since the Unix epoch, on the producer's clock.
    pub event_timestamp: i64,
    /// Milliseconds since the Unix epoch, on the producer's clock.
    pub publish_timestamp: i64,
    pub topic_sequence_number: i64,
    pub token_id: Option<String>,
    pub text: String,
}

/// The key shared with the producer, fixed for the life of the process.
pub struct SharedSecret {
    pub value: String,
}

/// What serde_json writes for a string: the quoted, escaped JSON literal.
pub uninterp spec fn json_str_of(s: Seq<char>) -> Seq<char>;

/// The decimal digit `d` (0 to 9) as a character.
pub open spec fn decimal_digit(d: int) -> char {
    seq!['0', '1', '2', '3', '4', '5', '6', '7', '8', '9'][d]
}

/// The decimal digits of `n`, without leading zeros.
pub open spec fn nat_decimal(n: nat) -> Seq<char>
    decreases n,
{
    if n < 10 {
        seq![decimal_digit(n as int)]
    } else {
        nat_decimal(n / 10).push(decimal_digit((n % 10) as int))
    }
}

/// The decimal form of an integer, with a leading `-` when it is negative.
pub open spec fn int_decimal(i: int) -> Seq<char> {
    if i < 0 {
        seq!['-'] + nat_decimal((-i) as nat)
    } else {
        nat_decimal(i as nat)
    }
}

/// The JSON value written for an optional string: `null` or the literal.
pub open spec fn json_opt_str(s: Option<String>) -> Seq<char> {
    match s {
        Some(t) => json_str_of(t@),
        None => "null"@,
    }
}

/// The canonical encoding of a payload: one JSON object, keys in declaration
/// order, no whitespace.
pub open spec fn canonical(p: WebhookPayload) -> Seq<char> {
    "{\"cache\":"@ + json_str_of(p.cache@)
        + ",\"topic\":"@ + json_str_of(p.topic@)
        + ",\"event_timestamp\":"@ + int_decimal(p.event_timestamp as int)
        + ",\"publish_timestamp\":"@ + int_decimal(p.publish_timestamp as int)
        + ",\"topic_sequence_number\":"@ + int_decimal(p.topic_sequence_number as int)
        + ",\"token_id\":"@ + json_opt_str(p.token_id)
        + ",\"text\":"@ + json_str_of(p.text@)
        + "}"@
}

/// Relies on serde_json::to_string for a `str`: the quoted, escaped JSON
/// string literal. Serialising a string into memory cannot fail.
#[verifier::external_body]
pub(crate) fn json_string(s: &str) -> (r: String)
    ensures
        r@ == json_str_of(s@),
{
    serde_json::to_string(s).unwrap_or_default()
}

/// Relies on serde_json::to_string for an `i64`: its decimal form.
#[verifier::external_body]
pub(crate) fn json_integer(i: i64) -> (r: String)
    ensures
        r@ == int_decimal(i as int),
{
    serde_json::to_string(&i).unwrap_or_default()
}

/// Writes the canonical encoding of `p`.
pub fn canonical_json(p: &WebhookPayload) -> (r: String)
    ensures
        r@ == canonical(*p),
{
    let mut out = "{\"cache\":".to_owned();
    out.append(json_string(p.cache.as_str()).as_str());
    out.append(",\"topic\":");
    out.append(json_string(p.topic.as_str()).as_str());
    out.append(",\"event_timestamp\":");
    out.append(json_integer(p.event_timestamp).as_str());
    out.append(",\"publish_timestamp\":");
    out.append(json_integer(p.publish_timestamp).as_str());
    out.append(",\"topic_sequence_number\":");
    out.append(json_integer(p.topic_sequence_number).as_str());
    out.append(",\"token_id\":");
    match &p.token_id {
        Some(t) => out.append(json_string(t.as_str()).as_str()),
        None => out.append("null"),
    }
    out.append(",\"text\":");
    out.append(json_string(p.text.as_str()).as_str());
    out.append("}");
    out
}

/// Two payloads with the same field values.
pub open spec fn same_fields(p: WebhookPayload, q: WebhookPayload) -> bool {
    &&& p.cache@ == q.cache@
    &&& p.topic@ == q.topic@
    &&& p.event_timestamp == q.event_timestamp
    &&& p.publish_timestamp == q.publish_timestamp
    &&& p.topic_sequence_number == q.topic_sequence_number
    &&& p.token_id.is_some() == q.token_id.is_some()
    &&& p.token_id.is_some() ==> p.token_id.unwrap()@ == q.token_id.unwrap()@
    &&& p.text@ == q.text@
}

/// The canonical encoding depends on the field values alone: encoding the
/// same payload twice, or two payloads with equal fields, gives the same
/// text, so a signature check is deterministic.
pub proof fn lemma_canonical_deterministic(p: WebhookPayload, q: WebhookPayload)
    requires
        same_fields(p, q),
    ensures
        canonical(p) == canonical(q),
{
}

} // verus!
