use leads_backend::api::{leads_query, login, prepare_lead, CreateLeadInput, LoginOutcome};
use leads_backend::auth::{authenticate, AuthError, UserRecord};

const NOW: u64 = 1_700_000_000;

fn user() -> UserRecord {
    UserRecord { id: "u-1".to_string(), email: "a@b.com".to_string(), role: "admin".to_string() }
}

#[test]
fn login_of_existing_user_issues_token_for_thirty_days() {
    let out = login(Ok(Some(user())), "k", NOW);
    assert_eq!(out.status(), 200);
    assert_eq!(out.error_message(), None);
    let token = match out {
        LoginOutcome::Issued(t) => t,
        other => panic!("expected a token, got {:?}", other),
    };
    let header = format!("Bearer {}", token);
    let c = authenticate(Some(&header), "k", NOW + 30 * 86_400).unwrap();
    assert_eq!(c.sub, "a@b.com");
    assert_eq!(c.exp, NOW + 30 * 86_400);
    assert_eq!(authenticate(Some(&header), "k", NOW + 30 * 86_400 + 1), Err(AuthError::InvalidToken));
}

#[test]
fn login_of_unknown_email_is_unauthorized() {
    let out = login(Ok(None), "k", NOW);
    assert_eq!(out, LoginOutcome::UserNotFound);
    assert_eq!(out.status(), 401);
    assert_eq!(out.error_message(), Some("User not found".to_string()));
}

#[test]
fn login_store_error_passes_message() {
    let out = login(Err("pool timed out".to_string()), "k", NOW);
    assert_eq!(out.status(), 500);
    assert_eq!(out.error_message(), Some("pool timed out".to_string()));
    assert_eq!(LoginOutcome::SigningFailed.status(), 500);
}

#[test]
fn listing_without_token_is_refused_first() {
    assert_eq!(authenticate(None, "k", NOW).unwrap_err().status(), 401);
}

#[test]
fn listing_query_binds_advisor() {
    let q = leads_query(Some("X' OR 1=1 --"));
    assert_eq!(q.sql, "SELECT * FROM leads WHERE is_archived = false AND (assigned_to = $1::uuid OR assigned_to IS NULL) ORDER BY created_at DESC");
    assert_eq!(q.advisor, Some("X' OR 1=1 --".to_string()));
    let q = leads_query(None);
    assert_eq!(q.sql, "SELECT * FROM leads WHERE is_archived = false ORDER BY created_at DESC");
    assert_eq!(q.advisor, None);
}

fn input(status: Option<&str>, assigned: Option<&str>) -> CreateLeadInput {
    CreateLeadInput {
        name: "Ann".to_string(),
        email: Some("ann@x.io".to_string()),
        phone: None,
        interest: Some("IUL".to_string()),
        status: status.map(|s| s.to_string()),
        source: Some("web".to_string()),
        assigned_to: assigned.map(|s| s.to_string()),
        message: None,
    }
}

#[test]
fn new_lead_defaults_status() {
    let r = prepare_lead(input(None, None));
    assert_eq!(r.status, "New");
    assert_eq!(r.name, "Ann");
    assert_eq!(r.email, Some("ann@x.io".to_string()));
    assert_eq!(r.assigned_to, None);
    assert_eq!(prepare_lead(input(Some("Contacted"), None)).status, "Contacted");
}

#[test]
fn new_lead_reads_assignment() {
    let r = prepare_lead(input(None, Some("67e55044-10b1-426f-9247-bb680e5fe0c8")));
    assert_eq!(r.assigned_to, Some(0x67e5504410b1426f9247bb680e5fe0c8));
    assert_eq!(prepare_lead(input(None, Some("not-a-uuid"))).assigned_to, None);
}
