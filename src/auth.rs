//! Token issuer and credential verifier.
//!
//! A token is a signed claim set (HS256 over a shared secret). Verification
//! is stateless: it reads the token alone and the time it is given.
use vstd::prelude::*;

use axum_extra::headers::authorization::Bearer;
use axum_extra::headers::Authorization;
use jsonwebtoken::{Algorithm, DecodingKey, EncodingKey, Validation};
use serde_json::Value;

verus! {

/// Seconds that an issued token stays valid: thirty days.
pub const TOKEN_LIFETIME_SECS: u64 = 2592000;

/// The identity claims that a token carries.
#[derive(Debug, PartialEq, Eq)]
pub struct Claims {
    /// The subject: the user's email address.
    pub sub: String,
    /// The user's id.
    pub id: String,
    /// The user's role.
    pub role: String,
    /// Expiry, in seconds since the Unix epoch.
    pub exp: u64,
}

/// The claims as text and number.
pub struct ClaimsView {
    pub sub: Seq<char>,
    pub id: Seq<char>,
    pub role: Seq<char>,
    pub exp: u64,
}

impl View for Claims {
    type V = ClaimsView;

    open spec fn view(&self) -> ClaimsView {
        ClaimsView { sub: self.sub@, id: self.id@, role: self.role@, exp: self.exp }
    }
}

/// A user record found at login.
#[derive(Debug)]
pub struct UserRecord {
    pub id: String,
    pub email: String,
    pub role: String,
}

/// Why a request was refused authentication.
#[derive(Debug, Clone, Copy, PartialEq, Eq, Structural)]
pub enum AuthError {
    /// No Authorization header, or one that is not a bearer credential.
    MissingToken,
    /// A bearer token that does not decode, is not signed with the secret,
    /// or has expired.
    InvalidToken,
}

impl AuthError {
    /// The HTTP status of the refusal.
    pub fn status(&self) -> (r: u16)
        ensures
            r == 401,
    {
        401
    }

    /// The error text of the refusal.
    pub fn message(&self) -> (r: String)
        ensures
            (match *self {
                AuthError::MissingToken => r@ == "Missing bearer token"@,
                AuthError::InvalidToken => r@ == "Invalid token"@,
            }),
    {
        match self {
            AuthError::MissingToken => "Missing bearer token".to_owned(),
            AuthError::InvalidToken => "Invalid token".to_owned(),
        }
    }
}

/// Why no token could be issued.
#[derive(Debug, Clone, Copy, PartialEq, Eq, Structural)]
pub enum IssueError {
    SigningFailed,
}

#[verifier::external_type_specification]
#[verifier::external_body]
pub struct ExJwtError(jsonwebtoken::errors::Error);

/// A character that an Authorization header can hold as text.
pub open spec fn header_char(c: char) -> bool {
    c == '\t' || (' ' <= c && c <= '~')
}

/// `v` starts with the scheme `Bearer` (in any case) and a space.
pub open spec fn names_bearer(v: Seq<char>) -> bool {
    &&& v.len() > 6
    &&& (v[0] == 'B' || v[0] == 'b')
    &&& (v[1] == 'E' || v[1] == 'e')
    &&& (v[2] == 'A' || v[2] == 'a')
    &&& (v[3] == 'R' || v[3] == 'r')
    &&& (v[4] == 'E' || v[4] == 'e')
    &&& (v[5] == 'R' || v[5] == 'r')
    &&& v[6] == ' '
}

/// `s` without its leading spaces and tabs.
pub open spec fn skip_blanks(s: Seq<char>) -> Seq<char>
    decreases s.len(),
{
    if s.len() > 0 && (s[0] == ' ' || s[0] == '\t') {
        skip_blanks(s.drop_first())
    } else {
        s
    }
}

/// The token of a bearer Authorization header value, if it is one.
pub open spec fn bearer_token_of(v: Seq<char>) -> Option<Seq<char>> {
    if (forall|i: int| 0 <= i < v.len() ==> header_char(#[trigger] v[i])) && names_bearer(v) {
        Some(skip_blanks(v.subrange(7, v.len() as int)))
    } else {
        None
    }
}

/// The token that jsonwebtoken's `encode` makes of `claims` under `secret`
/// (default HS256 header).
pub uninterp spec fn signed_token(claims: ClaimsView, secret: Seq<char>) -> Seq<char>;

/// The claims that jsonwebtoken's `decode` reads from `token` under
/// `secret`, with HS256 and without a check of the expiry, if it accepts it.
pub uninterp spec fn decoded_claims(token: Seq<char>, secret: Seq<char>) -> Option<ClaimsView>;

/// A character of a token as jsonwebtoken writes it: URL-safe base64
/// digits and the dots between the parts.
pub open spec fn token_char(c: char) -> bool {
    ('A' <= c && c <= 'Z') || ('a' <= c && c <= 'z') || ('0' <= c && c <= '9') || c == '-' || c == '_'
        || c == '.'
}

/// Relies on headers' `Authorization<Bearer>` decoding of a header value
/// (after http's `HeaderValue::from_str`): the value must be visible ASCII
/// or tabs, start with `Bearer ` in any case, and its token is the rest
/// without leading blanks.
#[verifier::external_body]
fn bearer_credential(value: &str) -> (r: Option<String>)
    ensures
        r matches Some(t) ==> bearer_token_of(value@) == Some(t@),
        r is None ==> bearer_token_of(value@) is None,
{
    let hv = axum::http::HeaderValue::from_str(value).ok()?;
    let header = <Authorization<Bearer> as axum_extra::headers::Header>::decode(&mut std::iter::once(&hv));
    header.ok().map(|a| a.token().to_owned())
}

/// Relies on jsonwebtoken::encode with the default header (HS256) and an
/// HMAC key made of the secret's bytes, over an object with the members
/// `sub`, `id`, `role` and `exp`. With an HMAC key and HS256 it does not
/// fail; its parts are URL-safe base64 without padding, joined by dots.
/// decode with the same secret verifies the signature it made and reads the
/// same members back.
#[verifier::external_body]
fn encode_claims(c: &Claims, secret: &str) -> (r: Result<String, jsonwebtoken::errors::Error>)
    ensures
        r is Ok,
        r matches Ok(t) ==> forall|i: int| 0 <= i < t@.len() ==> token_char(#[trigger] t@[i]),
        r matches Ok(t) ==> t@ == signed_token(c@, secret@),
        r matches Ok(t) ==> decoded_claims(t@, secret@) == Some(c@),
{
    let mut m = serde_json::Map::new();
    m.insert("sub".to_owned(), Value::from(c.sub.as_str()));
    m.insert("id".to_owned(), Value::from(c.id.as_str()));
    m.insert("role".to_owned(), Value::from(c.role.as_str()));
    m.insert("exp".to_owned(), Value::from(c.exp));
    let key = EncodingKey::from_secret(secret.as_bytes());
    jsonwebtoken::encode(&jsonwebtoken::Header::default(), &m, &key)
}

/// Relies on jsonwebtoken::decode with HS256, the secret's bytes as HMAC
/// key and the expiry check turned off, reading the members `sub`, `id`,
/// `role` (strings) and `exp` (an unsigned integer) of the claims.
#[verifier::external_body]
fn decode_claims(token: &str, secret: &str) -> (r: Option<Claims>)
    ensures
        r matches Some(c) ==> decoded_claims(token@, secret@) == Some(c@),
        r is None ==> decoded_claims(token@, secret@) is None,
{
    let mut rules = Validation::new(Algorithm::HS256);
    rules.validate_exp = false;
    let key = DecodingKey::from_secret(secret.as_bytes());
    let m = jsonwebtoken::decode::<serde_json::Map<String, Value>>(token, &key, &rules).ok()?.claims;
    let sub = m.get("sub")?.as_str()?.to_owned();
    let id = m.get("id")?.as_str()?.to_owned();
    let role = m.get("role")?.as_str()?.to_owned();
    Some(Claims { sub, id, role, exp: m.get("exp")?.as_u64()? })
}

/// The outcome of a check of decoded claims at time `now`: a token whose
/// expiry lies strictly before `now` is refused.
pub open spec fn expiry_verdict(decoded: Option<ClaimsView>, now: u64) -> Result<ClaimsView, AuthError> {
    match decoded {
        None => Err(AuthError::InvalidToken),
        Some(c) => if c.exp < now {
            Err(AuthError::InvalidToken)
        } else {
            Ok(c)
        },
    }
}

/// The outcome of verifying `token` under `secret` at time `now`.
pub open spec fn token_verdict(token: Seq<char>, secret: Seq<char>, now: u64) -> Result<ClaimsView, AuthError> {
    expiry_verdict(decoded_claims(token, secret), now)
}

/// The outcome of authenticating a request whose Authorization header
/// value is `header` (`None` when absent).
pub open spec fn header_verdict(header: Option<Seq<char>>, secret: Seq<char>, now: u64) -> Result<ClaimsView, AuthError> {
    match header {
        None => Err(AuthError::MissingToken),
        Some(h) => match bearer_token_of(h) {
            None => Err(AuthError::MissingToken),
            Some(t) => token_verdict(t, secret, now),
        },
    }
}

/// A result with its claims seen as text.
pub open spec fn verdict_of(r: Result<Claims, AuthError>) -> Result<ClaimsView, AuthError> {
    match r {
        Ok(c) => Ok(c@),
        Err(e) => Err(e),
    }
}

/// The claims issued to `user` at time `issued_at`.
pub open spec fn claims_of(user: UserRecord, issued_at: u64) -> ClaimsView
    recommends
        issued_at + TOKEN_LIFETIME_SECS <= u64::MAX,
{
    ClaimsView {
        sub: user.email@,
        id: user.id@,
        role: user.role@,
        exp: (issued_at + TOKEN_LIFETIME_SECS) as u64,
    }
}

/// Checks the expiry of claims that a token decoded to (`None` when it
/// did not decode or its signature did not match).
pub fn check_expiry(decoded: Option<Claims>, now: u64) -> (r: Result<Claims, AuthError>)
    ensures
        verdict_of(r) == expiry_verdict(
            match decoded {
                Some(c) => Some(c@),
                None => None,
            },
            now,
        ),
{
    match decoded {
        None => Err(AuthError::InvalidToken),
        Some(c) => if c.exp < now {
            Err(AuthError::InvalidToken)
        } else {
            Ok(c)
        },
    }
}

/// Verifies a bearer token under `secret` at time `now` (seconds since
/// the Unix epoch).
pub fn verify_token(token: &str, secret: &str, now: u64) -> (r: Result<Claims, AuthError>)
    ensures
        verdict_of(r) == token_verdict(token@, secret@, now),
{
    check_expiry(decode_claims(token, secret), now)
}

/// Authenticates a request by its Authorization header value.
pub fn authenticate(header: Option<&str>, secret: &str, now: u64) -> (r: Result<Claims, AuthError>)
    ensures
        verdict_of(r) == header_verdict(
            match header {
                Some(h) => Some(h@),
                None => None,
            },
            secret@,
            now,
        ),
{
    match header {
        None => Err(AuthError::MissingToken),
        Some(h) => match bearer_credential(h) {
            None => Err(AuthError::MissingToken),
            Some(t) => verify_token(t.as_str(), secret, now),
        },
    }
}

/// The claims for `user`, expiring thirty days after `now`.
pub fn claims_for(user: &UserRecord, now: u64) -> (r: Claims)
    requires
        now <= u64::MAX - TOKEN_LIFETIME_SECS,
    ensures
        r@ == claims_of(*user, now),
{
    Claims {
        sub: user.email.clone(),
        id: user.id.clone(),
        role: user.role.clone(),
        exp: now + TOKEN_LIFETIME_SECS,
    }
}

/// Issues a token for `user` at time `now`, signed with `secret`. Until its
/// expiry the token verifies under the same secret to exactly the user's
/// email, id and role.
pub fn issue_token(user: &UserRecord, secret: &str, now: u64) -> (r: Result<String, IssueError>)
    requires
        now <= u64::MAX - TOKEN_LIFETIME_SECS,
    ensures
        r matches Ok(t) ==> t@ == signed_token(claims_of(*user, now), secret@),
        r matches Ok(t) ==> decoded_claims(t@, secret@) == Some(claims_of(*user, now)),
        r matches Ok(t) ==> forall|i: int| 0 <= i < t@.len() ==> token_char(#[trigger] t@[i]),
        r is Ok,
{
    let c = claims_for(user, now);
    match encode_claims(&c, secret) {
        Ok(t) => Ok(t),
        Err(_) => Err(IssueError::SigningFailed),
    }
}

/// A token whose claims expired strictly before `now` is refused, however
/// valid its signature.
pub proof fn lemma_expired_token_refused(token: Seq<char>, secret: Seq<char>, now: u64)
    requires
        decoded_claims(token, secret) matches Some(c) && c.exp < now,
    ensures
        token_verdict(token, secret, now) == Err::<ClaimsView, AuthError>(AuthError::InvalidToken),
        forall|h: Seq<char>|
            #[trigger] bearer_token_of(h) == Some(token) ==> header_verdict(Some(h), secret, now)
                == Err::<ClaimsView, AuthError>(AuthError::InvalidToken),
{
}

/// The bearer header `Bearer <token>` of a token made of token characters
/// carries that token.
pub proof fn lemma_bearer_header_carries_token(token: Seq<char>)
    requires
        forall|i: int| 0 <= i < token.len() ==> token_char(#[trigger] token[i]),
    ensures
        bearer_token_of("Bearer "@ + token) == Some(token),
{
    reveal_strlit("Bearer ");
    let h = "Bearer "@ + token;
    assert(h.subrange(7, h.len() as int) =~= token);
    assert forall|i: int| 0 <= i < h.len() implies header_char(#[trigger] h[i]) by {
        if i >= 7 {
            assert(h[i] == token[i - 7]);
            assert(token_char(token[i - 7]));
        }
    }
    if token.len() > 0 {
        assert(token_char(token[0]));
    }
}

/// A token issued to a user, then verified under the same secret at any
/// time up to its expiry, yields exactly the user's email, id and role.
pub proof fn lemma_issue_then_verify(user: UserRecord, secret: Seq<char>, issued_at: u64, token: Seq<char>, now: u64)
    requires
        issued_at <= u64::MAX - TOKEN_LIFETIME_SECS,
        decoded_claims(token, secret) == Some(claims_of(user, issued_at)),
        now <= issued_at + TOKEN_LIFETIME_SECS,
    ensures
        token_verdict(token, secret, now) matches Ok(c) && c.sub == user.email@ && c.id == user.id@
            && c.role == user.role@,
        token_verdict(token, secret, now) == Ok::<ClaimsView, AuthError>(claims_of(user, issued_at)),
{
}

/// A request bearing `Bearer <token>` with a token issued to a user is
/// authenticated, under the same secret and up to the token's expiry, as
/// exactly that user, with the expiry thirty days after issue.
pub proof fn lemma_issued_bearer_authenticates(
    user: UserRecord,
    secret: Seq<char>,
    issued_at: u64,
    token: Seq<char>,
    now: u64,
)
    requires
        issued_at <= u64::MAX - TOKEN_LIFETIME_SECS,
        decoded_claims(token, secret) == Some(claims_of(user, issued_at)),
        forall|i: int| 0 <= i < token.len() ==> token_char(#[trigger] token[i]),
        now <= issued_at + TOKEN_LIFETIME_SECS,
    ensures
        header_verdict(Some("Bearer "@ + token), secret, now) == Ok::<ClaimsView, AuthError>(
            claims_of(user, issued_at),
        ),
        claims_of(user, issued_at).exp == issued_at + TOKEN_LIFETIME_SECS,
{
    lemma_bearer_header_carries_token(token);
}

} // verus!
