//! Decisions of the login, lead listing and lead creation endpoints.
use vstd::prelude::*;

use crate::auth::{
    claims_of, decoded_claims, issue_token, signed_token, token_char, IssueError, UserRecord,
    TOKEN_LIFETIME_SECS,
};

verus! {

/// The outcome of a login attempt.
#[derive(Debug, PartialEq, Eq)]
pub enum LoginOutcome {
    /// A token was issued.
    Issued(String),
    /// No non-deleted user has the email.
    UserNotFound,
    /// The user lookup failed, with the store's message.
    StoreError(String),
    /// The token could not be signed.
    SigningFailed,
}

/// The HTTP status of a login outcome.
pub open spec fn login_status(o: LoginOutcome) -> u16 {
    match o {
        LoginOutcome::Issued(_) => 200,
        LoginOutcome::UserNotFound => 401,
        _ => 500,
    }
}

impl LoginOutcome {
    /// The HTTP status of the outcome.
    pub fn status(&self) -> (r: u16)
        ensures
            r == login_status(*self),
    {
        match self {
            LoginOutcome::Issued(_) => 200,
            LoginOutcome::UserNotFound => 401,
            _ => 500,
        }
    }

    /// The error text of a failed login.
    pub fn error_message(&self) -> (r: Option<String>)
        ensures
            (match *self {
                LoginOutcome::Issued(_) => r is None,
                LoginOutcome::UserNotFound => r matches Some(m) && m@ == "User not found"@,
                LoginOutcome::StoreError(e) => r matches Some(m) && m@ == e@,
                LoginOutcome::SigningFailed => r matches Some(m) && m@ == "Token signing failed"@,
            }),
    {
        match self {
            LoginOutcome::Issued(_) => None,
            LoginOutcome::UserNotFound => Some("User not found".to_owned()),
            LoginOutcome::StoreError(e) => Some(e.clone()),
            LoginOutcome::SigningFailed => Some("Token signing failed".to_owned()),
        }
    }
}

/// Decides a login from the result of looking the user up by email: a
/// found user gets a token valid for thirty days from `now`.
pub fn login(lookup: Result<Option<UserRecord>, String>, secret: &str, now: u64) -> (r: LoginOutcome)
    requires
        now <= u64::MAX - TOKEN_LIFETIME_SECS,
    ensures
        lookup matches Err(m) ==> r == LoginOutcome::StoreError(m),
        lookup matches Ok(None) ==> r == LoginOutcome::UserNotFound && login_status(r) == 401,
        lookup matches Ok(Some(_)) ==> login_status(r) == 200,
        lookup matches Ok(Some(u)) ==> r matches LoginOutcome::Issued(t) && t@ == signed_token(
            claims_of(u, now),
            secret@,
        ) && decoded_claims(t@, secret@) == Some(claims_of(u, now)) && (forall|i: int|
            0 <= i < t@.len() ==> token_char(#[trigger] t@[i])),
{
    match lookup {
        Err(m) => LoginOutcome::StoreError(m),
        Ok(None) => LoginOutcome::UserNotFound,
        Ok(Some(u)) => match issue_token(&u, secret, now) {
            Ok(t) => LoginOutcome::Issued(t),
            Err(IssueError::SigningFailed) => LoginOutcome::SigningFailed,
        },
    }
}

/// The listing query: non-archived leads, newest first; with an advisor,
/// only those assigned to that advisor (bound as `$1`) or to nobody.
pub open spec fn leads_sql(by_advisor: bool) -> Seq<char> {
    if by_advisor {
        "SELECT * FROM leads WHERE is_archived = false"@ + " AND (assigned_to = $1::uuid OR assigned_to IS NULL)"@
            + " ORDER BY created_at DESC"@
    } else {
        "SELECT * FROM leads WHERE is_archived = false"@ + " ORDER BY created_at DESC"@
    }
}

/// A parameterized listing query and the value bound to its parameter.
#[derive(Debug)]
pub struct LeadsQuery {
    pub sql: String,
    /// The advisor id bound as `$1`, when the query filters by advisor.
    pub advisor: Option<String>,
}

/// The listing query for an optional advisor filter. The advisor id is
/// bound, never spliced into the query text.
pub fn leads_query(advisor: Option<&str>) -> (r: LeadsQuery)
    ensures
        r.sql@ == leads_sql(advisor is Some),
        r.advisor matches Some(a) ==> advisor matches Some(b) && a@ == b@,
        r.advisor is None ==> advisor is None,
{
    let base = "SELECT * FROM leads WHERE is_archived = false".to_owned();
    match advisor {
        Some(a) => LeadsQuery {
            sql: base.concat(" AND (assigned_to = $1::uuid OR assigned_to IS NULL)").concat(
                " ORDER BY created_at DESC",
            ),
            advisor: Some(a.to_owned()),
        },
        None => LeadsQuery { sql: base.concat(" ORDER BY created_at DESC"), advisor: None },
    }
}

/// The 128-bit value of a UUID written as text, as uuid's `Uuid::parse_str`
/// reads it.
pub uninterp spec fn uuid_value(s: Seq<char>) -> Option<u128>;

/// Relies on uuid::Uuid::parse_str, taking the parsed id as its 128-bit
/// value; the result depends on the text alone.
#[verifier::external_body]
fn parse_uuid(s: &str) -> (r: Option<u128>)
    ensures
        r == uuid_value(s@),
{
    uuid::Uuid::parse_str(s).ok().map(|u| u.as_u128())
}

/// A lead submitted through the API (its detail blobs travel beside it).
#[derive(Debug)]
pub struct CreateLeadInput {
    pub name: String,
    pub email: Option<String>,
    pub phone: Option<String>,
    pub interest: Option<String>,
    pub status: Option<String>,
    pub source: Option<String>,
    pub assigned_to: Option<String>,
    pub message: Option<String>,
}

/// The row inserted for a submitted lead.
#[derive(Debug)]
pub struct NewLeadRow {
    pub name: String,
    pub email: Option<String>,
    pub phone: Option<String>,
    pub interest: Option<String>,
    pub status: String,
    pub source: Option<String>,
    /// The assigned advisor's id, when one was given and reads as a UUID.
    pub assigned_to: Option<u128>,
    pub message: Option<String>,
}

/// The row for a submitted lead: the status defaults to `New`, and an
/// assignment that does not read as a UUID is dropped.
pub fn prepare_lead(input: CreateLeadInput) -> (r: NewLeadRow)
    ensures
        r.name == input.name,
        r.email == input.email,
        r.phone == input.phone,
        r.interest == input.interest,
        r.status@ == (match input.status {
            Some(s) => s@,
            None => "New"@,
        }),
        r.source == input.source,
        r.assigned_to == (match input.assigned_to {
            Some(a) => uuid_value(a@),
            None => None,
        }),
        r.message == input.message,
{
    let status = match input.status {
        Some(s) => s,
        None => "New".to_owned(),
    };
    let assigned_to = match &input.assigned_to {
        Some(a) => parse_uuid(a.as_str()),
        None => None,
    };
    NewLeadRow {
        name: input.name,
        email: input.email,
        phone: input.phone,
        interest: input.interest,
        status,
        source: input.source,
        assigned_to,
        message: input.message,
    }
}

} // verus!
