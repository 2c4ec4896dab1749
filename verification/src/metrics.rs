//! The host's own metrics: which collectors it registers, and the body of the
//! metrics route.

use crate::text::text_or_empty;
use crate::text::utf8_text_or_empty;
use vstd::prelude::*;
use vstd::string::StringExecFns;

verus! {

/// The kinds of collector that the host registers.
#[derive(Clone, Copy, Debug, PartialEq, Eq, Structural)]
pub enum CollectorKind {
    /// A counter that only grows.
    Counter,
    /// A family of counters told apart by labels.
    CounterVec,
    /// A family of histograms told apart by labels.
    HistogramVec,
}

/// What one registration of a collector came to.
#[derive(Clone, Copy, Debug, PartialEq, Eq, Structural)]
pub enum Registration {
    /// The collector was registered.
    Registered,
    /// The collector had been registered before.
    AlreadyRegistered,
    /// The registry refused the collector for another reason.
    Refused,
}

/// A collector of the host's registry as plain values.
#[derive(Debug)]
pub struct CollectorDesc {
    pub name: String,
    pub help: String,
    pub labels: Vec<String>,
    pub kind: CollectorKind,
}

impl CollectorDesc {
    /// The collector's labels as texts.
    pub open spec fn label_texts(&self) -> Seq<Seq<char>> {
        Seq::new(self.labels@.len(), |i: int| self.labels@[i]@)
    }

    /// The collector has this name, help text, labels and kind.
    pub open spec fn is(
        &self,
        name: Seq<char>,
        help: Seq<char>,
        labels: Seq<Seq<char>>,
        kind: CollectorKind,
    ) -> bool {
        &&& self.name@ == name
        &&& self.help@ == help
        &&& self.label_texts() == labels
        &&& self.kind == kind
    }
}

/// The collector `incoming_requests`: a counter of the requests that came in.
pub fn incoming_requests() -> (desc: CollectorDesc)
    ensures
        desc.is("incoming_requests"@, "Incoming Requests"@, Seq::empty(), CollectorKind::Counter),
{
    let desc = CollectorDesc {
        name: String::from_str("incoming_requests"),
        help: String::from_str("Incoming Requests"),
        labels: Vec::new(),
        kind: CollectorKind::Counter,
    };
    assert(desc.label_texts() =~= Seq::empty());
    desc
}

/// The collector `response_code`: counters by `env`, `statuscode` and
/// type.
pub fn response_code() -> (desc: CollectorDesc)
    ensures
        desc.is(
            "response_code"@,
            "Response Codes"@,
            seq!["env"@, "statuscode"@, "type"@],
            CollectorKind::CounterVec,
        ),
{
    let mut labels: Vec<String> = Vec::new();
    labels.push(String::from_str("env"));
    labels.push(String::from_str("statuscode"));
    labels.push(String::from_str("type"));
    let desc = CollectorDesc {
        name: String::from_str("response_code"),
        help: String::from_str("Response Codes"),
        labels,
        kind: CollectorKind::CounterVec,
    };
    assert(desc.label_texts() =~= seq!["env"@, "statuscode"@, "type"@]);
    desc
}

/// The collector `response_time`: histograms by `env`.
pub fn response_time() -> (desc: CollectorDesc)
    ensures
        desc.is("response_time"@, "Response Times"@, seq!["env"@], CollectorKind::HistogramVec),
{
    let mut labels: Vec<String> = Vec::new();
    labels.push(String::from_str("env"));
    let desc = CollectorDesc {
        name: String::from_str("response_time"),
        help: String::from_str("Response Times"),
        labels,
        kind: CollectorKind::HistogramVec,
    };
    assert(desc.label_texts() =~= seq!["env"@]);
    desc
}

/// The collectors of the host's own registry, in the order in which they are
/// registered.
pub fn custom_collectors() -> (descs: Vec<CollectorDesc>)
    ensures
        descs@.len() == 3,
        descs@[0].is(
            "incoming_requests"@,
            "Incoming Requests"@,
            Seq::empty(),
            CollectorKind::Counter,
        ),
        descs@[1].is(
            "response_code"@,
            "Response Codes"@,
            seq!["env"@, "statuscode"@, "type"@],
            CollectorKind::CounterVec,
        ),
        descs@[2].is(
            "response_time"@,
            "Response Times"@,
            seq!["env"@],
            CollectorKind::HistogramVec,
        ),
{
    let mut descs: Vec<CollectorDesc> = Vec::new();
    descs.push(incoming_requests());
    descs.push(response_code());
    descs.push(response_time());
    descs
}

/// Whether a registration leaves the collector in the registry. Registering
/// again what is registered already is no failure.
pub fn registration_settled(outcome: Registration) -> (settled: bool)
    ensures
        settled == (outcome != Registration::Refused),
{
    match outcome {
        Registration::Registered => true,
        Registration::AlreadyRegistered => true,
        Registration::Refused => false,
    }
}

/// The body of the metrics route: the encoded metrics of the host's own
/// registry, then those of the process. An encoding that is not valid UTF-8
/// contributes nothing.
pub fn metrics_body(custom: Vec<u8>, process: Vec<u8>) -> (body: String)
    ensures
        body@ == text_or_empty(custom@) + text_or_empty(process@),
{
    let mut body = utf8_text_or_empty(custom);
    let rest = utf8_text_or_empty(process);
    body.append(rest.as_str());
    body
}

} // verus!
