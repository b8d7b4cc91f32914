//! Turning a published MQTT message into an [`IngestMsg`] and handing it to
//! the queue of its priority.
use vstd::prelude::*;
use crate::inserter::{after_dispatch, Channels, IngestMsg, SendOutcome};
use crate::metrics::Metrics;
use crate::text::{chars_of, string_from_chars};
use crate::topic::{operation_name, parse_topic, parse_topic_spec, priority_name, ParsedTopic, ParsedTopicView, Priority};

verus! {

/// Reads `bytes` as UTF-8 text (`std::str::from_utf8`): text exactly when
/// the bytes are valid UTF-8, and then the text those bytes encode.
#[verifier::external_body]
fn utf8_text(bytes: &[u8]) -> (r: Option<&str>)
    ensures
        r is Some <==> vstd::utf8::valid_utf8(bytes@),
        r matches Some(s) ==> s@ == vstd::utf8::decode_utf8(bytes@),
{
    std::str::from_utf8(bytes).ok()
}

/// What the JSON text `payload` says of its member `key`: none when the
/// payload is not JSON; `Some(None)` when it is JSON without such a member
/// (or is not an object); otherwise the member's text when it is a JSON
/// string, and the member written back as compact JSON.
pub uninterp spec fn json_member_of(payload: Seq<char>, key: Seq<char>) -> Option<Option<(Option<Seq<char>>, Seq<char>)>>;

/// A member as [`json_member_of`] sees it.
pub open spec fn member_view(m: Option<Option<(Option<String>, String)>>) -> Option<Option<(Option<Seq<char>>, Seq<char>)>> {
    match m {
        None => None,
        Some(None) => Some(None),
        Some(Some((s, t))) => Some(Some((text_view(s), t@))),
    }
}

/// Parses `payload` as JSON (`serde_json::from_str::<serde_json::Value>`)
/// and reads its member `key` (`Value::get`): its text when it is a string
/// (`Value::as_str`) and the member written back (`Value`'s `Display`). The
/// result depends on the payload and the key alone.
#[verifier::external_body]
fn json_member(payload: &str, key: &str) -> (r: Option<Option<(Option<String>, String)>>)
    ensures
        member_view(r) == json_member_of(payload@, key@),
{
    match serde_json::from_str::<serde_json::Value>(payload) {
        Ok(v) => match v.get(key) {
            Some(m) => Some(Some((m.as_str().map(str::to_owned), m.to_string()))),
            None => Some(None),
        },
        Err(_) => None,
    }
}

/// The text of a member when it is a JSON string.
pub open spec fn member_str(m: Option<Option<(Option<Seq<char>>, Seq<char>)>>) -> Option<Seq<char>> {
    match m {
        Some(Some((Some(s), _))) => Some(s),
        _ => None,
    }
}

/// A member written back as JSON, when present.
pub open spec fn member_text(m: Option<Option<(Option<Seq<char>>, Seq<char>)>>) -> Option<Seq<char>> {
    match m {
        Some(Some((_, t))) => Some(t),
        _ => None,
    }
}

/// The fields the worker keeps of the JSON payload `p`: its `id` and
/// `schema` where they are strings, and its `metadata` written back; none
/// when `p` is not JSON.
pub open spec fn payload_fields(p: Seq<char>) -> Option<(Option<Seq<char>>, Option<Seq<char>>, Option<Seq<char>>)> {
    if json_member_of(p, "id"@) is None {
        None
    } else {
        Some((member_str(json_member_of(p, "id"@)), member_str(json_member_of(p, "schema"@)), member_text(json_member_of(p, "metadata"@))))
    }
}

fn take_str(m: Option<Option<(Option<String>, String)>>) -> (r: Option<String>)
    ensures
        text_view(r) == member_str(member_view(m)),
{
    match m {
        Some(Some((s, _))) => s,
        _ => None,
    }
}

fn take_text(m: Option<Option<(Option<String>, String)>>) -> (r: Option<String>)
    ensures
        text_view(r) == member_text(member_view(m)),
{
    match m {
        Some(Some((_, t))) => Some(t),
        _ => None,
    }
}

/// A fresh random (version 4) UUID in its 36-character hyphenated form
/// (`uuid::Uuid::new_v4`, then `to_string`).
#[verifier::external_body]
fn new_uuid_v4() -> (s: String)
    ensures
        s@.len() == 36,
{
    uuid::Uuid::new_v4().to_string()
}

/// The payload's `id` when it is usable: present and not empty.
pub fn usable_id(found: Option<String>) -> (r: Option<String>)
    ensures
        match r {
            Some(s) => found == Some(s) && s@.len() > 0,
            None => found is None || found->0@.len() == 0,
        },
{
    match found {
        Some(s) => if s.as_str().is_empty() { None } else { Some(s) },
        None => None,
    }
}

/// What a JSON payload carries of the fields the worker keeps: its `id` and
/// `schema` where they are strings, and its `metadata` serialized.
pub type JsonFields = (Option<String>, Option<String>, Option<String>);

/// A field taken by its text.
pub open spec fn text_view(s: Option<String>) -> Option<Seq<char>> {
    match s {
        Some(t) => Some(t@),
        None => None,
    }
}

/// The event id, schema and metadata of a payload whose JSON fields are
/// `json` (none for a payload that is not JSON): the id is the payload's
/// `id` where that is a non-empty string, else `fresh_id`; schema and
/// metadata are the payload's.
pub open spec fn fields_spec(
    json: Option<(Option<Seq<char>>, Option<Seq<char>>, Option<Seq<char>>)>,
    fresh_id: Seq<char>,
) -> (Seq<char>, Option<Seq<char>>, Option<Seq<char>>) {
    match json {
        None => (fresh_id, None, None),
        Some((id, schema, metadata)) => (
            match id {
                Some(x) => if x.len() > 0 {
                    x
                } else {
                    fresh_id
                },
                None => fresh_id,
            },
            schema,
            metadata,
        ),
    }
}

/// The fields of a message as [`fields_spec`] sees them.
pub open spec fn fields_view(f: JsonFields) -> (Option<Seq<char>>, Option<Seq<char>>, Option<Seq<char>>) {
    (text_view(f.0), text_view(f.1), text_view(f.2))
}

/// The JSON fields of a payload as [`fields_spec`] sees them.
pub open spec fn json_view(json: Option<JsonFields>) -> Option<(Option<Seq<char>>, Option<Seq<char>>, Option<Seq<char>>)> {
    match json {
        Some(f) => Some(fields_view(f)),
        None => None,
    }
}

/// The event id, schema and metadata of a payload, from its JSON fields
/// (none for a payload that is not JSON) and an id to use where the payload
/// has none (see [`fields_spec`]).
pub fn fields_from(json: Option<JsonFields>, fresh_id: String) -> (r: (String, Option<String>, Option<String>))
    ensures
        (r.0@, text_view(r.1), text_view(r.2)) == fields_spec(json_view(json), fresh_id@),
{
    match json {
        None => (fresh_id, None, None),
        Some((id, schema_name, metadata_json)) => {
            let id = match usable_id(id) {
                Some(id) => id,
                None => fresh_id,
            };
            (id, schema_name, metadata_json)
        },
    }
}

/// The event id, schema and serialized metadata of a payload (see
/// [`fields_spec`] and [`payload_fields`]), with a fresh random UUID as the
/// id where the payload has no usable one.
pub fn extract_json_fields(payload: &str) -> (r: (String, Option<String>, Option<String>))
    ensures
        r.0@.len() > 0,
        exists|fresh: Seq<char>|
            #![trigger fields_spec(payload_fields(payload@), fresh)]
            fresh.len() == 36 && (r.0@, text_view(r.1), text_view(r.2)) == fields_spec(payload_fields(payload@), fresh),
{
    let id = json_member(payload, "id");
    let json: Option<JsonFields> = match id {
        None => None,
        Some(m) => {
            let id_text = take_str(Some(m));
            let schema = take_str(json_member(payload, "schema"));
            let metadata = take_text(json_member(payload, "metadata"));
            Some((id_text, schema, metadata))
        },
    };
    let needs_fresh = match &json {
        Some((Some(id), _, _)) => id.as_str().is_empty(),
        _ => true,
    };
    let fresh = if needs_fresh { new_uuid_v4() } else { String::new() };
    let ghost jv = json_view(json);
    assert(jv == payload_fields(payload@));
    let r = fields_from(json, fresh);
    proof {
        let witness = if needs_fresh { fresh@ } else { Seq::new(36, |i: int| '0') };
        assert(fields_spec(jv, witness) == fields_spec(jv, fresh@));
    }
    r
}

fn owned(s: &str) -> (r: String)
    ensures
        r@ == s@,
{
    string_from_chars(chars_of(s).as_slice())
}

/// The message for a parsed topic and its payload.
pub fn build_msg(
    parsed: ParsedTopic,
    raw_topic: String,
    payload: &str,
    fields: (String, Option<String>, Option<String>),
    received_at: String,
) -> (m: IngestMsg)
    ensures
        m.id == fields.0,
        m.tenant == parsed.tenant,
        m.database_name == parsed.database_name,
        m.entity == parsed.entity,
        m.operation@ == operation_name(parsed.operation),
        m.raw_topic == raw_topic,
        m.priority@ == priority_name(parsed.priority),
        m.schema_name == fields.1,
        m.payload_json@ == payload@,
        m.metadata_json == fields.2,
        m.received_at == received_at,
{
    let (id, schema_name, metadata_json) = fields;
    IngestMsg {
        id,
        tenant: parsed.tenant,
        database_name: parsed.database_name,
        entity: parsed.entity,
        operation: owned(parsed.operation.as_str()),
        raw_topic,
        priority: owned(parsed.priority.as_str()),
        schema_name,
        payload_json: owned(payload),
        metadata_json,
        received_at,
    }
}

/// What became of a published message.
pub enum PublishOutcome {
    /// The payload is not UTF-8; counted as invalid.
    PayloadNotUtf8,
    /// The topic was refused, for the reason given; counted as invalid.
    InvalidTopic(String),
    /// The message (kept as a ghost) was handed to the queue of its priority.
    Dispatched(Priority, SendOutcome, Ghost<IngestMsg>),
}

/// Whether `m` is the message built for a publication on `topic` whose
/// topic parsed as `p` and whose payload is the text `text`: the topic's
/// fields and names, the whole topic and payload, and the payload's id,
/// schema and metadata (see [`fields_spec`]) with some fresh 36-character id
/// where the payload has no usable one. Its reception time is the clock's.
pub open spec fn published_msg(m: IngestMsg, p: ParsedTopicView, topic: Seq<char>, text: Seq<char>) -> bool {
    &&& m.tenant@ == p.tenant
    &&& m.database_name@ == p.database_name
    &&& m.entity@ == p.entity
    &&& m.operation@ == operation_name(p.operation)
    &&& m.priority@ == priority_name(p.priority)
    &&& m.raw_topic@ == topic
    &&& m.payload_json@ == text
    &&& exists|fresh: Seq<char>|
        #![trigger fields_spec(payload_fields(text), fresh)]
        fresh.len() == 36 && (m.id@, text_view(m.schema_name), text_view(m.metadata_json)) == fields_spec(
            payload_fields(text),
            fresh,
        )
}

/// Handles one published message: a payload that is not UTF-8 or a topic
/// that does not parse is counted as invalid and goes no further; otherwise
/// the message is counted as received for its priority, built from the topic
/// and payload, and dispatched to that priority's queue, whose accepted
/// messages it joins when the queue takes it.
pub fn handle_publish(raw_topic: String, payload: &[u8], channels: &mut Channels, metrics: &mut Metrics) -> (o: PublishOutcome)
    ensures
        o is PayloadNotUtf8 || o is InvalidTopic ==> *final(channels) == *old(channels),
        o matches PublishOutcome::Dispatched(q, s, m) ==> {
            &&& s is Sent ==> final(channels).queued(q) == old(channels).queued(q).push(m@)
            &&& !(s is Sent) ==> final(channels).queued(q) == old(channels).queued(q)
            &&& Channels::others_kept(*old(channels), *final(channels), q)
        },
        !vstd::utf8::valid_utf8(payload@) ==> o is PayloadNotUtf8 && *final(metrics) == (Metrics {
            received_invalid: old(metrics).received_invalid.wrapping_add(1),
            ..*old(metrics)
        }),
        vstd::utf8::valid_utf8(payload@) ==> match parse_topic_spec(raw_topic@) {
            Err(e) => o matches PublishOutcome::InvalidTopic(m) && m@ == e && *final(metrics) == (Metrics {
                received_invalid: old(metrics).received_invalid.wrapping_add(1),
                ..*old(metrics)
            }),
            Ok(p) => o matches PublishOutcome::Dispatched(q, s, m) && q == p.priority && *final(metrics)
                == after_dispatch(old(metrics).after_received(p.priority), p.priority, s) && published_msg(
                m@,
                p,
                raw_topic@,
                vstd::utf8::decode_utf8(payload@),
            ),
        },
{
    let text = match utf8_text(payload) {
        Some(t) => t,
        None => {
            metrics.inc_invalid();
            return PublishOutcome::PayloadNotUtf8;
        },
    };
    let parsed = match parse_topic(raw_topic.as_str()) {
        Ok(p) => p,
        Err(e) => {
            metrics.inc_invalid();
            return PublishOutcome::InvalidTopic(e);
        },
    };
    let priority = parsed.priority;
    metrics.inc_received(priority);
    let fields = extract_json_fields(text);
    let received_at = crate::control::utc_now_text("%Y-%m-%dT%H:%M:%S%.3fZ");
    let msg = build_msg(parsed, raw_topic, text, fields, received_at);
    let (sent, handed) = channels.dispatch(msg, priority, metrics);
    PublishOutcome::Dispatched(priority, sent, Ghost(handed@.1))
}

} // verus!
