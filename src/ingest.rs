//! The webhook ingestion pipeline, one machine per inbound call.
//!
//! The machine decides; its driver performs each action it returns (an
//! audit-log write, a lead insert, the reply) and feeds back what happened.
//! The raw payload accompanies both writes unchanged: the audit entry as
//! its payload, the lead as its platform detail.
use vstd::prelude::*;

use crate::json::JsonValue;
use crate::normalize::{normalize, normalized, platform_named, LeadFields, NormalizeError};

verus! {

/// Status of an audit-log entry.
#[derive(Debug, Clone, Copy, PartialEq, Eq, Structural)]
pub enum LogStatus {
    Pending,
    Success,
    Failed,
}

/// An audit-log entry for one inbound webhook call.
#[derive(Debug)]
pub struct IngestionLogEntry {
    pub platform: String,
    pub event_type: String,
    pub status: LogStatus,
}

/// A canonical lead row to insert.
#[derive(Debug)]
pub struct LeadRecord {
    pub name: String,
    pub email: String,
    pub phone: String,
    pub interest: String,
    pub source: String,
    pub status: String,
    pub message: String,
}

/// Where a call stands.
#[derive(Debug, Clone, Copy, PartialEq, Eq, Structural)]
pub enum Stage {
    /// The call has arrived; nothing is written yet.
    Received,
    /// The audit-log write has been handed out.
    Logging,
    /// The lead insert has been handed out.
    Persisting,
    /// The lead was stored.
    Accepted,
    /// The platform is not supported; no lead is made.
    Rejected,
    /// The store refused the lead.
    Failed,
}

/// What the driver reports back.
#[derive(Debug)]
pub enum IngestEvent {
    /// Start processing the call.
    Begin,
    /// The audit-log write was attempted; whether it succeeded does not matter.
    LogAttempted,
    /// The lead insert succeeded.
    LeadStored,
    /// The lead insert failed with the store's message.
    StoreFailed(String),
}

/// The reply to the webhook's sender.
#[derive(Debug, PartialEq, Eq)]
pub enum WebhookReply {
    /// The lead was ingested.
    Ingested,
    /// The platform is not supported.
    UnsupportedPlatform,
    /// The store failed, with its message.
    StoreError(String),
}

/// The HTTP status of a reply.
pub open spec fn reply_status(r: WebhookReply) -> u16 {
    match r {
        WebhookReply::Ingested => 200,
        WebhookReply::UnsupportedPlatform => 400,
        WebhookReply::StoreError(_) => 500,
    }
}

impl WebhookReply {
    /// The HTTP status of this reply.
    pub fn status(&self) -> (r: u16)
        ensures
            r == reply_status(*self),
    {
        match self {
            WebhookReply::Ingested => 200,
            WebhookReply::UnsupportedPlatform => 400,
            WebhookReply::StoreError(_) => 500,
        }
    }

    /// The message of a success, or the error text of a failure.
    pub fn message(&self) -> (r: String)
        ensures
            (match *self {
                WebhookReply::Ingested => r@ == "Lead ingested"@,
                WebhookReply::UnsupportedPlatform => r@ == "Unsupported platform"@,
                WebhookReply::StoreError(e) => r@ == e@,
            }),
    {
        match self {
            WebhookReply::Ingested => "Lead ingested".to_owned(),
            WebhookReply::UnsupportedPlatform => "Unsupported platform".to_owned(),
            WebhookReply::StoreError(e) => e.clone(),
        }
    }
}

/// What the driver is to do next.
#[derive(Debug)]
pub enum IngestAction {
    /// Write this audit-log entry, with the raw payload; best effort.
    WriteLog(IngestionLogEntry),
    /// Insert this lead, with the raw payload as its platform detail.
    InsertLead(LeadRecord),
    /// Answer the call.
    Respond(WebhookReply),
    /// Nothing: the event does not fit the stage.
    Idle,
}

/// One inbound webhook call.
#[derive(Debug)]
pub struct Ingestion {
    /// The platform identifier of the webhook path.
    pub platform: String,
    /// The payload as received.
    pub payload: JsonValue,
    pub stage: Stage,
}

/// `e` is the pending audit entry of a call from `platform`.
pub open spec fn is_log_entry_for(e: IngestionLogEntry, platform: Seq<char>) -> bool {
    &&& e.platform@ == platform
    &&& e.event_type@ == "INGEST_ATTEMPT"@
    &&& e.status == LogStatus::Pending
}

/// `l` is the canonical lead for fields `f` of a call from `platform`.
pub open spec fn is_lead_for(l: LeadRecord, platform: Seq<char>, f: LeadFields) -> bool {
    &&& l.name@ == f.name
    &&& l.email@ == f.email
    &&& l.phone@ == f.phone
    &&& l.interest@ == f.interest
    &&& l.source@ == platform + "_ads"@
    &&& l.status@ == "New"@
    &&& l.message@ == "Auto-Imported via Webhook"@
}

/// The machine moves from `pre` to `post` on `event`, asking for `act`.
pub open spec fn steps(pre: Ingestion, event: IngestEvent, post: Ingestion, act: IngestAction) -> bool {
    &&& post.platform == pre.platform
    &&& post.payload == pre.payload
    &&& match (pre.stage, event) {
        (Stage::Received, IngestEvent::Begin) => {
            &&& post.stage == Stage::Logging
            &&& act matches IngestAction::WriteLog(e) && is_log_entry_for(e, pre.platform@)
        },
        (Stage::Logging, IngestEvent::LogAttempted) => match normalized(pre.platform@, pre.payload) {
            Ok(f) => {
                &&& post.stage == Stage::Persisting
                &&& act matches IngestAction::InsertLead(l) && is_lead_for(l, pre.platform@, f)
            },
            Err(_) => {
                &&& post.stage == Stage::Rejected
                &&& act == IngestAction::Respond(WebhookReply::UnsupportedPlatform)
            },
        },
        (Stage::Persisting, IngestEvent::LeadStored) => {
            &&& post.stage == Stage::Accepted
            &&& act == IngestAction::Respond(WebhookReply::Ingested)
        },
        (Stage::Persisting, IngestEvent::StoreFailed(m)) => {
            &&& post.stage == Stage::Failed
            &&& act == IngestAction::Respond(WebhookReply::StoreError(m))
        },
        _ => post.stage == pre.stage && act == IngestAction::Idle,
    }
}

impl Ingestion {
    /// A call from `platform` carrying `payload`, just received.
    pub fn new(platform: String, payload: JsonValue) -> (r: Ingestion)
        ensures
            r.platform == platform,
            r.payload == payload,
            r.stage == Stage::Received,
    {
        Ingestion { platform, payload, stage: Stage::Received }
    }

    /// Advances the call on `event` and returns what to do next.
    pub fn step(&mut self, event: IngestEvent) -> (act: IngestAction)
        ensures
            steps(*old(self), event, *final(self), act),
    {
        match (self.stage, event) {
            (Stage::Received, IngestEvent::Begin) => {
                self.stage = Stage::Logging;
                IngestAction::WriteLog(
                    IngestionLogEntry {
                        platform: self.platform.clone(),
                        event_type: "INGEST_ATTEMPT".to_owned(),
                        status: LogStatus::Pending,
                    },
                )
            },
            (Stage::Logging, IngestEvent::LogAttempted) => match normalize(self.platform.as_str(), &self.payload) {
                Ok(f) => {
                    self.stage = Stage::Persisting;
                    IngestAction::InsertLead(
                        LeadRecord {
                            name: f.name,
                            email: f.email,
                            phone: f.phone,
                            interest: f.interest,
                            source: self.platform.clone().concat("_ads"),
                            status: "New".to_owned(),
                            message: "Auto-Imported via Webhook".to_owned(),
                        },
                    )
                },
                Err(NormalizeError::UnsupportedPlatform) => {
                    self.stage = Stage::Rejected;
                    IngestAction::Respond(WebhookReply::UnsupportedPlatform)
                },
            },
            (Stage::Persisting, IngestEvent::LeadStored) => {
                self.stage = Stage::Accepted;
                IngestAction::Respond(WebhookReply::Ingested)
            },
            (Stage::Persisting, IngestEvent::StoreFailed(m)) => {
                self.stage = Stage::Failed;
                IngestAction::Respond(WebhookReply::StoreError(m))
            },
            _ => IngestAction::Idle,
        }
    }
}

/// `states`, `events` and `actions` form a run of the machine: each state
/// and action follows from the one before on its event.
pub open spec fn is_run(states: Seq<Ingestion>, events: Seq<IngestEvent>, actions: Seq<IngestAction>) -> bool {
    &&& states.len() == events.len() + 1
    &&& actions.len() == events.len()
    &&& forall|i: int|
        0 <= i < events.len() ==> steps(states[i], #[trigger] events[i], states[i + 1], actions[i])
}

/// Some action before index `n` is an audit-log write.
pub open spec fn logged_before(actions: Seq<IngestAction>, n: int) -> bool {
    exists|j: int| 0 <= j < n && #[trigger] actions[j] is WriteLog
}

proof fn lemma_unsupported_prefix(
    states: Seq<Ingestion>,
    events: Seq<IngestEvent>,
    actions: Seq<IngestAction>,
    n: int,
)
    requires
        is_run(states, events, actions),
        states[0].stage == Stage::Received,
        platform_named(states[0].platform@) is None,
        0 <= n <= events.len(),
    ensures
        states[n].platform == states[0].platform,
        states[n].stage == Stage::Received || states[n].stage == Stage::Logging || states[n].stage
            == Stage::Rejected,
        states[n].stage != Stage::Received ==> logged_before(actions, n),
        forall|i: int|
            0 <= i < n ==> !(#[trigger] actions[i] is InsertLead) && (actions[i] is Respond ==> (
            actions[i] == IngestAction::Respond(WebhookReply::UnsupportedPlatform) && logged_before(
                actions,
                i,
            ))),
    decreases n,
{
    if n > 0 {
        lemma_unsupported_prefix(states, events, actions, n - 1);
        let k = n - 1;
        assert(steps(states[k], events[k], states[k + 1], actions[k]));
        if states[n].stage != Stage::Received && states[k].stage == Stage::Received {
            assert(actions[k] is WriteLog);
        }
        assert forall|i: int| 0 <= i < n && #[trigger] actions[i] is Respond implies logged_before(actions, i)
            && actions[i] == IngestAction::Respond(WebhookReply::UnsupportedPlatform) by {
            if i < k {
            } else if actions[i] is Respond {
                assert(logged_before(actions, k));
            }
        }
        if states[k].stage != Stage::Received {
            assert(logged_before(actions, k));
            let j = choose|j: int| 0 <= j < k && #[trigger] actions[j] is WriteLog;
            assert(actions[j] is WriteLog);
        }
    }
}

/// A call from an unknown platform never inserts a lead; every reply it
/// gets is the client error for an unsupported platform, and comes only
/// after the audit-log write was handed out.
pub proof fn lemma_unsupported_platform_rejected(
    states: Seq<Ingestion>,
    events: Seq<IngestEvent>,
    actions: Seq<IngestAction>,
)
    requires
        is_run(states, events, actions),
        states[0].stage == Stage::Received,
        platform_named(states[0].platform@) is None,
    ensures
        forall|i: int| 0 <= i < actions.len() ==> !(#[trigger] actions[i] is InsertLead),
        forall|i: int|
            0 <= i < actions.len() && #[trigger] actions[i] is Respond ==> actions[i]
                == IngestAction::Respond(WebhookReply::UnsupportedPlatform) && logged_before(actions, i),
        reply_status(WebhookReply::UnsupportedPlatform) == 400,
{
    lemma_unsupported_prefix(states, events, actions, events.len() as int);
}

} // verus!
