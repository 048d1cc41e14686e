use vstd::prelude::*;
use crate::role::{role_from_label, role_label, UserRole};
use crate::text::is_ascii_alnum;

verus! {

/// How long an issued token stays valid, in seconds.
pub const TOKEN_TTL_SECS: u64 = 86400;

#[verifier::external_type_specification]
#[verifier::external_body]
pub struct ExJwtError(jsonwebtoken::errors::Error);

type JwtResult<T> = Result<T, jsonwebtoken::errors::Error>;

/// The token that `jsonwebtoken::encode` makes of the claims
/// `{sub, role, exp}` under the default HS256 header and this secret.
pub uninterp spec fn signed_token(sub: Seq<char>, role: Seq<char>, exp: u64, secret: Seq<u8>) -> Seq<char>;

/// What `jsonwebtoken::decode` finds in a token whose signature it checks
/// against this secret (no time checks): the `sub`, `role` and `exp` claims
/// where they are present with the right JSON type; `None` where it refuses
/// the token.
pub uninterp spec fn token_payload(token: Seq<char>, secret: Seq<u8>) -> Option<FieldsView>;

/// The three claims as read from a token, each absent when missing or mistyped.
pub type FieldsView = (Option<Seq<char>>, Option<Seq<char>>, Option<u64>);

/// The claims of a token whose signature has been checked.
#[derive(Debug)]
pub struct TokenFields {
    pub sub: Option<String>,
    pub role: Option<String>,
    pub exp: Option<u64>,
}

impl View for TokenFields {
    type V = FieldsView;

    open spec fn view(&self) -> FieldsView {
        (
            match self.sub {
                Some(s) => Some(s@),
                None => None,
            },
            match self.role {
                Some(s) => Some(s@),
                None => None,
            },
            self.exp,
        )
    }
}

/// Why a token was refused; for diagnostics only.
#[derive(Clone, Copy, Debug, PartialEq, Eq, Structural)]
pub enum TokenFault {
    Malformed,
    BadSignature,
    Expired,
}

/// The signed payload of a token: subject id, role and expiry (seconds since
/// the epoch).
#[derive(Debug)]
pub struct Claims {
    pub sub: String,
    pub role: UserRole,
    pub exp: u64,
}

pub type ClaimsView = (Seq<char>, UserRole, u64);

impl View for Claims {
    type V = ClaimsView;

    open spec fn view(&self) -> ClaimsView {
        (self.sub@, self.role, self.exp)
    }
}

pub open spec fn claims_result(r: Result<Claims, TokenFault>) -> Result<ClaimsView, TokenFault> {
    match r {
        Ok(c) => Ok(c@),
        Err(e) => Err(e),
    }
}

/// The verdict on the claims of a token with a valid signature at time `now`:
/// all three must be present and the role known, and the expiry must lie
/// strictly after `now`.
pub open spec fn fields_outcome(f: FieldsView, now: u64) -> Result<ClaimsView, TokenFault> {
    match f {
        (Some(sub), Some(role), Some(exp)) => match role_from_label(role) {
            Some(r) => if exp > now {
                Ok((sub, r, exp))
            } else {
                Err(TokenFault::Expired)
            },
            None => Err(TokenFault::Malformed),
        },
        _ => Err(TokenFault::Malformed),
    }
}

/// The verdict of `verify_token` on a token and a secret at time `now`.
pub open spec fn verify_outcome(token: Seq<char>, secret: Seq<u8>, now: u64) -> Option<
    Result<ClaimsView, TokenFault>,
> {
    match token_payload(token, secret) {
        Some(f) => Some(fields_outcome(f, now)),
        None => None,
    }
}

/// Characters of a signed token: the base64url alphabet, and the dots
/// between its three parts.
pub open spec fn is_jwt_char(c: char) -> bool {
    is_ascii_alnum(c) || c == '-' || c == '_' || c == '.'
}

/// A non-empty text made of token characters only.
pub open spec fn is_jwt_text(s: Seq<char>) -> bool {
    s.len() > 0 && forall|i: int| 0 <= i < s.len() ==> is_jwt_char(#[trigger] s[i])
}

/// The claims issued for a subject at time `now`.
pub open spec fn issued_claims(sub: Seq<char>, role: UserRole, now: u64) -> ClaimsView {
    (sub, role, (now + TOKEN_TTL_SECS) as u64)
}

/// Relies on `jsonwebtoken::encode` with an HMAC key from `secret` and the
/// default HS256 header: it serialises the claims and signs them, and with an
/// HMAC key it does not fail. The token is three unpadded base64url parts
/// joined by dots.
#[verifier::external_body]
fn sign_claims(sub: &str, role: &str, exp: u64, secret: &[u8]) -> (r: JwtResult<String>)
    ensures
        r is Ok,
        r is Ok ==> r->Ok_0@ == signed_token(sub@, role@, exp, secret@),
        r is Ok ==> is_jwt_text(r->Ok_0@),
{
    let mut payload = serde_json::Map::new();
    payload.insert("sub".to_string(), serde_json::Value::from(sub));
    payload.insert("role".to_string(), serde_json::Value::from(role));
    payload.insert("exp".to_string(), serde_json::Value::from(exp));
    let key = jsonwebtoken::EncodingKey::from_secret(secret);
    jsonwebtoken::encode(&jsonwebtoken::Header::default(), &payload, &key)
}

/// Relies on `jsonwebtoken::decode` with HS256 and an HMAC key from `secret`,
/// time checks switched off: it accepts exactly the tokens whose signature
/// matches, and gives back the claims that `jsonwebtoken::encode` put in.
#[verifier::external_body]
fn open_token(token: &str, secret: &[u8]) -> (r: JwtResult<TokenFields>)
    ensures
        r is Ok <==> token_payload(token@, secret@) is Some,
        r is Ok ==> token_payload(token@, secret@) == Some(r->Ok_0@),
        forall|sub: Seq<char>, role: Seq<char>, exp: u64|
            token@ == #[trigger] signed_token(sub, role, exp, secret@) ==> r is Ok && r->Ok_0@ == (
                Some(sub),
                Some(role),
                Some(exp),
            ),
{
    let mut rules = jsonwebtoken::Validation::new(jsonwebtoken::Algorithm::HS256);
    rules.validate_exp = false;
    rules.required_spec_claims.clear();
    let key = jsonwebtoken::DecodingKey::from_secret(secret);
    let claims = jsonwebtoken::decode::<serde_json::Map<String, serde_json::Value>>(token, &key, &rules)?.claims;
    Ok(TokenFields {
        sub: claims.get("sub").and_then(serde_json::Value::as_str).map(String::from),
        role: claims.get("role").and_then(serde_json::Value::as_str).map(String::from),
        exp: claims.get("exp").and_then(serde_json::Value::as_u64),
    })
}

/// Relies on `jsonwebtoken::errors::Error::kind`: a refused signature is told
/// apart from every other refusal.
#[verifier::external_body]
fn decode_fault(e: &jsonwebtoken::errors::Error) -> (r: TokenFault)
    ensures
        r != TokenFault::Expired,
{
    match e.kind() {
        jsonwebtoken::errors::ErrorKind::InvalidSignature => TokenFault::BadSignature,
        _ => TokenFault::Malformed,
    }
}

/// Builds the claims for a subject at time `now`: expiry 24 hours later.
pub fn issue_claims(sub: &str, role: UserRole, now: u64) -> (r: Claims)
    requires
        now <= u64::MAX - TOKEN_TTL_SECS,
    ensures
        r@ == issued_claims(sub@, role, now),
{
    Claims { sub: String::from_str(sub), role, exp: now + TOKEN_TTL_SECS }
}

/// Signs a set of claims with `secret`.
pub fn encode_claims(claims: &Claims, secret: &[u8]) -> (r: String)
    ensures
        r@ == signed_token(claims.sub@, role_label(claims.role), claims.exp, secret@),
        is_jwt_text(r@),
{
    let role = claims.role.label();
    match sign_claims(claims.sub.as_str(), role.as_str(), claims.exp, secret) {
        Ok(t) => t,
        Err(_) => String::new(),
    }
}

/// Issues a token for a subject at time `now`, valid for 24 hours.
pub fn issue_token(sub: &str, role: UserRole, now: u64, secret: &[u8]) -> (r: String)
    requires
        now <= u64::MAX - TOKEN_TTL_SECS,
    ensures
        r@ == signed_token(sub@, role_label(role), (now + TOKEN_TTL_SECS) as u64, secret@),
        is_jwt_text(r@),
{
    let claims = issue_claims(sub, role, now);
    encode_claims(&claims, secret)
}

fn copy_text(s: &Option<String>) -> (r: Option<String>)
    ensures
        match (s, r) {
            (Some(a), Some(b)) => a@ == b@,
            (None, None) => true,
            _ => false,
        },
{
    match s {
        Some(a) => Some(a.clone()),
        None => None,
    }
}

/// Judges the claims of a token whose signature was checked, at time `now`.
pub fn check_token_fields(fields: &TokenFields, now: u64) -> (r: Result<Claims, TokenFault>)
    ensures
        claims_result(r) == fields_outcome(fields@, now),
{
    let sub = copy_text(&fields.sub);
    let role = copy_text(&fields.role);
    match (sub, role, fields.exp) {
        (Some(sub), Some(role), Some(exp)) => match UserRole::from_label(role.as_str()) {
            Some(r) => {
                if exp > now {
                    Ok(Claims { sub, role: r, exp })
                } else {
                    Err(TokenFault::Expired)
                }
            },
            None => Err(TokenFault::Malformed),
        },
        _ => Err(TokenFault::Malformed),
    }
}

/// Checks a token's signature against `secret` and its claims at time `now`.
pub fn verify_token(token: &str, secret: &[u8], now: u64) -> (r: Result<Claims, TokenFault>)
    ensures
        match verify_outcome(token@, secret@, now) {
            Some(o) => claims_result(r) == o,
            None => r matches Err(e) && e != TokenFault::Expired,
        },
        forall|sub: Seq<char>, role: Seq<char>, exp: u64|
            token@ == #[trigger] signed_token(sub, role, exp, secret@) ==> claims_result(r)
                == fields_outcome((Some(sub), Some(role), Some(exp)), now),
{
    match open_token(token, secret) {
        Ok(fields) => check_token_fields(&fields, now),
        Err(e) => Err(decode_fault(&e)),
    }
}

} // verus!
