use vstd::prelude::*;
use crate::error::{ApiError, AuthFailure};
use crate::policy::AuthUser;
use crate::role::UserRole;
use crate::text::is_ascii_alnum;
use crate::token::{
    fields_outcome, is_jwt_char, is_jwt_text, signed_token, token_payload, verify_token, ClaimsView,
};

verus! {

pub open spec fn ascii_lower(c: char) -> char {
    if 'A' <= c && c <= 'Z' {
        ((c as u32) + 32) as char
    } else {
        c
    }
}

/// The first six characters of `h` spell `bearer`, in any case.
pub open spec fn has_bearer_scheme(h: Seq<char>) -> bool {
    let scheme = seq!['b', 'e', 'a', 'r', 'e', 'r'];
    h.len() >= 6 && forall|i: int| 0 <= i < 6 ==> ascii_lower(#[trigger] h[i]) == scheme[i]
}

/// Characters of a bearer token (`b64token`).
pub open spec fn is_token_char(c: char) -> bool {
    is_ascii_alnum(c) || c == '-' || c == '.' || c == '_' || c == '~' || c == '+' || c == '/'
        || c == '='
}

/// The index of the first character at or after `i` that is not a space.
pub open spec fn skip_spaces(h: Seq<char>, i: int) -> int
    decreases h.len() - i,
{
    if 0 <= i < h.len() && h[i] == ' ' {
        skip_spaces(h, i + 1)
    } else {
        i
    }
}

/// The token of an `Authorization` value of the form `Bearer`, one or more
/// spaces, then a non-empty token; `None` for any other form.
pub open spec fn bearer_token_of(h: Seq<char>) -> Option<Seq<char>> {
    let start = skip_spaces(h, 6);
    if has_bearer_scheme(h) && 6 < start < h.len() && forall|i: int|
        start <= i < h.len() ==> is_token_char(#[trigger] h[i]) {
        Some(h.subrange(start, h.len() as int))
    } else {
        None
    }
}

pub type PrincipalView = (Seq<char>, UserRole);

pub open spec fn principal_result(r: Result<AuthUser, ApiError>) -> Result<PrincipalView, ApiError> {
    match r {
        Ok(u) => Ok((u.user_id@, u.role)),
        Err(e) => Err(e),
    }
}

/// The outcome of authenticating a request whose `Authorization` value is
/// `header`, with the token's decoded payload `payload`, at time `now`.
pub open spec fn authentication_outcome(
    header: Option<Seq<char>>,
    payload: Option<crate::token::FieldsView>,
    now: u64,
) -> Result<PrincipalView, ApiError> {
    match header {
        None => Err(ApiError::Unauthenticated(AuthFailure::MissingHeader)),
        Some(h) => match bearer_token_of(h) {
            None => Err(ApiError::Unauthenticated(AuthFailure::MalformedHeader)),
            Some(_) => match payload {
                None => Err(ApiError::Unauthenticated(AuthFailure::InvalidToken)),
                Some(f) => match fields_outcome(f, now) {
                    Ok(c) => Ok((c.0, c.1)),
                    Err(_) => Err(ApiError::Unauthenticated(AuthFailure::InvalidToken)),
                },
            },
        },
    }
}

/// The outcome of authenticating with a token that the token service signed
/// with the checking secret, for these claims.
pub open spec fn signed_principal(sub: Seq<char>, role: Seq<char>, exp: u64, now: u64) -> Result<
    PrincipalView,
    ApiError,
> {
    match fields_outcome((Some(sub), Some(role), Some(exp)), now) {
        Ok(c) => Ok((c.0, c.1)),
        Err(_) => Err(ApiError::Unauthenticated(AuthFailure::InvalidToken)),
    }
}

/// `Bearer ` followed by a token.
pub open spec fn bearer_header(token: Seq<char>) -> Seq<char> {
    seq!['B', 'e', 'a', 'r', 'e', 'r', ' '] + token
}

/// The decoded payload of the bearer token in `header`, if there is one.
pub open spec fn header_payload(header: Option<Seq<char>>, secret: Seq<u8>) -> Option<
    crate::token::FieldsView,
> {
    match header {
        Some(h) => match bearer_token_of(h) {
            Some(t) => token_payload(t, secret),
            None => None,
        },
        None => None,
    }
}

fn is_token_char_exec(c: char) -> (r: bool)
    ensures
        r == is_token_char(c),
{
    ('a' <= c && c <= 'z') || ('A' <= c && c <= 'Z') || ('0' <= c && c <= '9') || c == '-' || c
        == '.' || c == '_' || c == '~' || c == '+' || c == '/' || c == '='
}

fn lower_ascii_exec(c: char) -> (r: char)
    ensures
        r == ascii_lower(c),
{
    if 'A' <= c && c <= 'Z' {
        let b = (c as u32 + 32) as u8;
        b as char
    } else {
        c
    }
}

/// Extracts the token from an `Authorization` value of the form
/// `Bearer <token>`; the scheme is matched without regard to case.
pub fn bearer_token(header: &str) -> (r: Option<String>)
    ensures
        match bearer_token_of(header@) {
            Some(t) => r is Some && r->Some_0@ == t,
            None => r is None,
        },
{
    let n = header.unicode_len();
    if n < 6 {
        return None;
    }
    let scheme = "bearer";
    proof {
        reveal_strlit("bearer");
    }
    let mut i: usize = 0;
    while i < 6
        invariant
            n == header@.len(),
            n >= 6,
            i <= 6,
            scheme@ == seq!['b', 'e', 'a', 'r', 'e', 'r'],
            forall|j: int| 0 <= j < i ==> ascii_lower(#[trigger] header@[j]) == scheme@[j],
        decreases 6 - i,
    {
        if lower_ascii_exec(header.get_char(i)) != scheme.get_char(i) {
            return None;
        }
        i = i + 1;
    }
    assert(has_bearer_scheme(header@));
    let mut start: usize = 6;
    while start < n && header.get_char(start) == ' '
        invariant
            n == header@.len(),
            6 <= start <= n,
            skip_spaces(header@, start as int) == skip_spaces(header@, 6),
        decreases n - start,
    {
        start = start + 1;
    }
    assert(skip_spaces(header@, start as int) == start);
    if start == 6 || start == n {
        return None;
    }
    let mut k: usize = start;
    while k < n
        invariant
            n == header@.len(),
            start <= k <= n,
            start == skip_spaces(header@, 6),
            has_bearer_scheme(header@),
            forall|j: int| start <= j < k ==> is_token_char(#[trigger] header@[j]),
        decreases n - k,
    {
        let c = header.get_char(k);
        if !is_token_char_exec(c) {
            assert(!is_token_char(header@[k as int]));
            return None;
        }
        k = k + 1;
    }
    Some(String::from_str(header.substring_char(start, n)))
}

/// Turns the `Authorization` value of a request into its principal.
pub fn authenticate(header: Option<&str>, secret: &[u8], now: u64) -> (r: Result<AuthUser, ApiError>)
    ensures
        principal_result(r) == authentication_outcome(
            match header {
                Some(h) => Some(h@),
                None => None,
            },
            header_payload(
                match header {
                    Some(h) => Some(h@),
                    None => None,
                },
                secret@,
            ),
            now,
        ),
        forall|sub: Seq<char>, role: Seq<char>, exp: u64|
            (header matches Some(h) && bearer_token_of(h@) matches Some(t) && t
                == #[trigger] signed_token(sub, role, exp, secret@)) ==> principal_result(r)
                == signed_principal(sub, role, exp, now),
{
    let h = match header {
        None => {
            return Err(ApiError::Unauthenticated(AuthFailure::MissingHeader));
        },
        Some(h) => h,
    };
    let token = match bearer_token(h) {
        None => {
            return Err(ApiError::Unauthenticated(AuthFailure::MalformedHeader));
        },
        Some(t) => t,
    };
    match verify_token(token.as_str(), secret, now) {
        Ok(claims) => Ok(AuthUser { user_id: claims.sub, role: claims.role }),
        Err(_) => Err(ApiError::Unauthenticated(AuthFailure::InvalidToken)),
    }
}

/// A token whose expiry is not after `now` never authenticates: its claims
/// are judged expired, and the request carrying it is rejected as an invalid
/// token whether or not its signature was accepted.
pub proof fn lemma_expired_token_rejected(
    header: Seq<char>,
    sub: Seq<char>,
    role: UserRole,
    exp: u64,
    signature_ok: bool,
    now: u64,
)
    requires
        bearer_token_of(header) is Some,
        exp <= now,
    ensures
        fields_outcome((Some(sub), Some(crate::role::role_label(role)), Some(exp)), now)
            == Err::<ClaimsView, crate::token::TokenFault>(crate::token::TokenFault::Expired),
        authentication_outcome(
            Some(header),
            if signature_ok {
                Some((Some(sub), Some(crate::role::role_label(role)), Some(exp)))
            } else {
                None
            },
            now,
        ) == Err::<PrincipalView, ApiError>(ApiError::Unauthenticated(AuthFailure::InvalidToken)),
{
    crate::role::lemma_label_round_trip(role);
}

/// `Bearer ` followed by a token that the token service signed is a
/// well-formed header carrying exactly that token.
pub proof fn lemma_bearer_header_of_token(t: Seq<char>)
    requires
        is_jwt_text(t),
    ensures
        bearer_token_of(bearer_header(t)) == Some(t),
{
    let h = bearer_header(t);
    let scheme = seq!['b', 'e', 'a', 'r', 'e', 'r'];
    assert(h[0] == 'B' && h[1] == 'e' && h[2] == 'a' && h[3] == 'r' && h[4] == 'e' && h[5] == 'r');
    assert(ascii_lower('B') == 'b');
    assert forall|i: int| 0 <= i < 6 implies ascii_lower(#[trigger] h[i]) == scheme[i] by {}
    assert(has_bearer_scheme(h));
    assert(h[6] == ' ');
    assert(h[7] == t[0]);
    assert(is_jwt_char(t[0]));
    assert(skip_spaces(h, 7) == 7);
    assert(skip_spaces(h, 6) == 7);
    assert forall|i: int| 7 <= i < h.len() implies is_token_char(#[trigger] h[i]) by {
        assert(h[i] == t[i - 7]);
        assert(is_jwt_char(t[i - 7]));
    }
    assert(h.subrange(7, h.len() as int) =~= t);
}

} // verus!
