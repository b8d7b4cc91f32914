//! The worker's control publications: a heartbeat on
//! `worker/{worker_id}/health` and the metrics on `worker/{worker_id}/metrics`.
use vstd::prelude::*;
use crate::text::push_str;

verus! {

/// The current UTC time written with the `strftime`-style format `fmt`
/// (`chrono::Utc::now`, then `format`); it depends on the clock, so nothing
/// is promised of it. Writing it panics for a malformed format, so only the
/// two formats the worker uses are admitted.
#[verifier::external_body]
pub(crate) fn utc_now_text(fmt: &str) -> String
    requires
        fmt@ == "%Y-%m-%dT%H:%M:%SZ"@ || fmt@ == "%Y-%m-%dT%H:%M:%S%.3fZ"@,
{
    chrono::Utc::now().format(fmt).to_string()
}

/// The control topic `kind` of a worker: `worker/{worker_id}/{kind}`.
pub open spec fn control_topic_spec(worker_id: Seq<char>, kind: Seq<char>) -> Seq<char> {
    "worker/"@ + worker_id + "/"@ + kind
}

/// The control topic `kind` of a worker (see [`control_topic_spec`]).
pub fn control_topic(worker_id: &str, kind: &str) -> (t: String)
    ensures
        t@ == control_topic_spec(worker_id@, kind@),
{
    let mut t = String::new();
    push_str(&mut t, "worker/");
    push_str(&mut t, worker_id);
    push_str(&mut t, "/");
    push_str(&mut t, kind);
    t
}

/// The heartbeat a worker publishes at time `ts`.
pub open spec fn health_payload_spec(worker_id: Seq<char>, ts: Seq<char>) -> Seq<char> {
    "{\"worker_id\":\""@ + worker_id + "\",\"status\":\"ok\",\"ts\":\""@ + ts + "\"}"@
}

/// The heartbeat a worker publishes at time `ts` (see [`health_payload_spec`]).
pub fn health_payload(worker_id: &str, ts: &str) -> (p: String)
    ensures
        p@ == health_payload_spec(worker_id@, ts@),
{
    let mut p = String::new();
    push_str(&mut p, "{\"worker_id\":\"");
    push_str(&mut p, worker_id);
    push_str(&mut p, "\",\"status\":\"ok\",\"ts\":\"");
    push_str(&mut p, ts);
    push_str(&mut p, "\"}");
    p
}

/// The topic and payload of a heartbeat sent now.
pub fn health_message(worker_id: &str) -> (m: (String, String))
    ensures
        m.0@ == control_topic_spec(worker_id@, "health"@),
        exists|ts: Seq<char>| m.1@ == #[trigger] health_payload_spec(worker_id@, ts),
{
    let ts = utc_now_text("%Y-%m-%dT%H:%M:%SZ");
    (control_topic(worker_id, "health"), health_payload(worker_id, ts.as_str()))
}

} // verus!
