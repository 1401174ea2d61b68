use leads_backend::ingest::{IngestAction, IngestEvent, Ingestion, LogStatus, Stage, WebhookReply};
use leads_backend::json::JsonValue;

fn s(x: &str) -> String {
    x.to_string()
}

fn jane() -> JsonValue {
    JsonValue::Object(vec![(s("user_column_data"), JsonValue::Array(vec![JsonValue::Object(vec![(s("string_value"), JsonValue::Str(s("Jane Doe")))])]))])
}

#[test]
fn google_webhook_creates_lead() {
    let mut m = Ingestion::new(s("google"), jane());
    match m.step(IngestEvent::Begin) {
        IngestAction::WriteLog(e) => {
            assert_eq!(e.platform, "google");
            assert_eq!(e.event_type, "INGEST_ATTEMPT");
            assert_eq!(e.status, LogStatus::Pending);
        }
        other => panic!("expected a log write, got {:?}", other),
    }
    match m.step(IngestEvent::LogAttempted) {
        IngestAction::InsertLead(l) => {
            assert_eq!(l.name, "Jane Doe");
            assert_eq!(l.source, "google_ads");
            assert_eq!(l.status, "New");
            assert_eq!(l.message, "Auto-Imported via Webhook");
            assert_eq!(l.interest, "Life Insurance");
        }
        other => panic!("expected a lead insert, got {:?}", other),
    }
    match m.step(IngestEvent::LeadStored) {
        IngestAction::Respond(r) => {
            assert_eq!(r, WebhookReply::Ingested);
            assert_eq!(r.status(), 200);
            assert_eq!(r.message(), "Lead ingested");
        }
        other => panic!("expected a reply, got {:?}", other),
    }
    assert_eq!(m.stage, Stage::Accepted);
}

#[test]
fn unknown_platform_logs_then_rejects() {
    let mut m = Ingestion::new(s("myspace"), jane());
    assert!(matches!(m.step(IngestEvent::Begin), IngestAction::WriteLog(_)));
    match m.step(IngestEvent::LogAttempted) {
        IngestAction::Respond(r) => {
            assert_eq!(r, WebhookReply::UnsupportedPlatform);
            assert_eq!(r.status(), 400);
            assert_eq!(r.message(), "Unsupported platform");
        }
        other => panic!("expected a reply, got {:?}", other),
    }
    assert_eq!(m.stage, Stage::Rejected);
    assert!(matches!(m.step(IngestEvent::LeadStored), IngestAction::Idle));
    assert!(matches!(m.step(IngestEvent::LogAttempted), IngestAction::Idle));
    assert_eq!(m.stage, Stage::Rejected);
}

#[test]
fn store_failure_is_reported() {
    let mut m = Ingestion::new(s("tiktok"), JsonValue::Null);
    m.step(IngestEvent::Begin);
    match m.step(IngestEvent::LogAttempted) {
        IngestAction::InsertLead(l) => {
            assert_eq!(l.name, "TikTok Lead");
            assert_eq!(l.source, "tiktok_ads");
        }
        other => panic!("expected a lead insert, got {:?}", other),
    }
    match m.step(IngestEvent::StoreFailed(s("connection reset"))) {
        IngestAction::Respond(r) => {
            assert_eq!(r.status(), 500);
            assert_eq!(r.message(), "connection reset");
        }
        other => panic!("expected a reply, got {:?}", other),
    }
    assert_eq!(m.stage, Stage::Failed);
}

#[test]
fn events_out_of_order_are_ignored() {
    let mut m = Ingestion::new(s("meta"), JsonValue::Null);
    assert!(matches!(m.step(IngestEvent::LogAttempted), IngestAction::Idle));
    assert!(matches!(m.step(IngestEvent::LeadStored), IngestAction::Idle));
    assert_eq!(m.stage, Stage::Received);
    m.step(IngestEvent::Begin);
    assert!(matches!(m.step(IngestEvent::Begin), IngestAction::Idle));
    assert_eq!(m.stage, Stage::Logging);
}
