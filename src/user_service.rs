use vstd::prelude::*;
use crate::auth::{
    bearer_header, bearer_token_of, lemma_bearer_header_of_token, signed_principal, PrincipalView,
};
use crate::error::{ApiError, AuthFailure, Invalid};
use crate::ids::{parsed_id, ObjectId};
use crate::password::{bcrypt_verdict, hash_password, verify_password};
use crate::policy::{owner_or_role_outcome, require_owner_or_role, AuthUser};
use crate::role::{role_label, UserRole};
use crate::search::{first_index, lemma_first_from_found, lemma_first_from_none};
use crate::token::{fields_outcome, is_jwt_text, issue_token, signed_token, TOKEN_TTL_SECS};
use crate::users::{
    email_pred, email_used_except, user_id_pred, user_id_used, LoginResponse, LoginUser,
    RegisterUser, User, UserResponse, UserStore, UserView,
};

verus! {

pub open spec fn role_or_default(r: Option<UserRole>) -> UserRole {
    match r {
        Some(role) => role,
        None => UserRole::User,
    }
}

pub open spec fn user_result(r: Result<User, ApiError>) -> Result<UserView, ApiError> {
    match r {
        Ok(u) => Ok(u@),
        Err(e) => Err(e),
    }
}

/// The record a registration stores, given the hash it computed.
pub open spec fn registered_user(
    id: Seq<char>,
    p: RegisterUser,
    hash: Seq<char>,
    profile_image: Option<Seq<char>>,
    now: i64,
) -> UserView {
    UserView {
        id: id,
        name: p.name@,
        email: p.email@,
        password: hash,
        profile_image: profile_image,
        role: role_or_default(p.role),
        created_at: now,
        updated_at: None,
    }
}

/// What a successful login hands back: the token, then the user's id, name,
/// email and role.
pub type LoginView = (Seq<char>, Seq<char>, Seq<char>, Seq<char>, UserRole);

pub open spec fn login_result(r: Result<LoginResponse, ApiError>) -> Result<LoginView, ApiError> {
    match r {
        Ok(l) => Ok((l.token@, l.user.id@, l.user.name@, l.user.email@, l.user.role)),
        Err(e) => Err(e),
    }
}

/// Logging in: the first user with the email, if the password matches its
/// hash, gets a token issued at `now`; every other case is the same generic
/// failure.
pub open spec fn login_outcome(
    s: Seq<UserView>,
    email: Seq<char>,
    password: Seq<char>,
    now: u64,
    secret: Seq<u8>,
) -> Result<LoginView, ApiError> {
    match first_index(s, email_pred(email)) {
        Some(i) => if bcrypt_verdict(password, s[i].password) == Some(true) {
            Ok(
                (
                    signed_token(
                        s[i].id,
                        role_label(s[i].role),
                        (now + TOKEN_TTL_SECS) as u64,
                        secret,
                    ),
                    s[i].id,
                    s[i].name,
                    s[i].email,
                    s[i].role,
                ),
            )
        } else {
            Err(ApiError::Unauthenticated(AuthFailure::InvalidCredentials))
        },
        None => Err(ApiError::Unauthenticated(AuthFailure::InvalidCredentials)),
    }
}

/// `u` with a new name, email and password hash, stamped at `now`.
pub open spec fn edited_user(
    u: UserView,
    name: Seq<char>,
    email: Seq<char>,
    hash: Seq<char>,
    now: i64,
) -> UserView {
    UserView { name: name, email: email, password: hash, updated_at: Some(now), ..u }
}

/// Registers a user under a given id. The password is hashed before
/// anything is stored; the role defaults to `User`.
pub fn register_user_as(
    store: &mut UserStore,
    new_id: ObjectId,
    payload: RegisterUser,
    profile_image_path: Option<String>,
    now: i64,
) -> (r: Result<User, ApiError>)
    requires
        old(store).wf(),
    ensures
        final(store).wf(),
        email_used_except(old(store)@, payload.email@, -1) ==> r == Err::<User, ApiError>(
            ApiError::Validation(Invalid::EmailTaken),
        ) && final(store)@ == old(store)@,
        !email_used_except(old(store)@, payload.email@, -1) && user_id_used(old(store)@, new_id@)
            ==> r == Err::<User, ApiError>(ApiError::Transient) && final(store)@ == old(store)@,
        r is Err && !email_used_except(old(store)@, payload.email@, -1) ==> r->Err_0
            == ApiError::Transient,
        r is Err ==> final(store)@ == old(store)@ && (r->Err_0 == ApiError::Validation(
            Invalid::EmailTaken,
        ) || r->Err_0 == ApiError::Transient),
        r is Ok ==> !email_used_except(old(store)@, payload.email@, -1) && !user_id_used(
            old(store)@,
            new_id@,
        ) && r->Ok_0@ == registered_user(
            new_id@,
            payload,
            r->Ok_0@.password,
            crate::text::opt_text(profile_image_path),
            now,
        ) && bcrypt_verdict(payload.password@, r->Ok_0@.password) == Some(true) && final(store)@
            == old(store)@.push(r->Ok_0@),
{
    let count = store.len();
    if store.email_used_except(payload.email.as_str(), usize::MAX) {
        assert(email_used_except(store@, payload.email@, -1)) by {
            let i = choose|i: int|
                0 <= i < store@.len() && i != usize::MAX as int && #[trigger] store@[i].email
                    == payload.email@;
            assert(i != -1);
        }
        return Err(ApiError::Validation(Invalid::EmailTaken));
    }
    assert(!email_used_except(store@, payload.email@, -1)) by {
        if email_used_except(store@, payload.email@, -1) {
            let i = choose|i: int|
                0 <= i < store@.len() && i != -1 && #[trigger] store@[i].email == payload.email@;
            assert(i < count);
        }
    }
    if store.contains_id(&new_id) {
        return Err(ApiError::Transient);
    }
    let hash = match hash_password(payload.password.as_str()) {
        Ok(h) => h,
        Err(_) => {
            return Err(ApiError::Transient);
        },
    };
    let u = User {
        id: new_id,
        name: payload.name,
        email: payload.email,
        password: hash,
        profile_image: profile_image_path,
        role: match payload.role {
            Some(role) => role,
            None => UserRole::User,
        },
        created_at: now,
        updated_at: None,
    };
    let created = u.copy();
    store.insert(u);
    Ok(created)
}

/// Registers a user under a freshly generated id.
pub fn register_user(
    store: &mut UserStore,
    payload: RegisterUser,
    profile_image_path: Option<String>,
    now: i64,
) -> (r: Result<User, ApiError>)
    requires
        old(store).wf(),
    ensures
        final(store).wf(),
        email_used_except(old(store)@, payload.email@, -1) ==> r == Err::<User, ApiError>(
            ApiError::Validation(Invalid::EmailTaken),
        ) && final(store)@ == old(store)@,
        r is Err && !email_used_except(old(store)@, payload.email@, -1) ==> r->Err_0
            == ApiError::Transient,
        r is Err ==> final(store)@ == old(store)@,
        r is Ok ==> r->Ok_0@ == registered_user(
            r->Ok_0@.id,
            payload,
            r->Ok_0@.password,
            crate::text::opt_text(profile_image_path),
            now,
        ) && bcrypt_verdict(payload.password@, r->Ok_0@.password) == Some(true) && final(store)@
            == old(store)@.push(r->Ok_0@),
{
    register_user_as(store, ObjectId::generate(), payload, profile_image_path, now)
}

/// Checks credentials and issues a token valid for 24 hours from `now`.
/// An unknown email and a wrong password fail alike.
pub fn login_user(store: &UserStore, creds: LoginUser, now: u64, secret: &[u8]) -> (r: Result<
    LoginResponse,
    ApiError,
>)
    requires
        now <= u64::MAX - TOKEN_TTL_SECS,
    ensures
        login_result(r) == login_outcome(store@, creds.email@, creds.password@, now, secret@),
        r is Ok ==> is_jwt_text(r->Ok_0.token@),
{
    let i = match store.find_by_email(creds.email.as_str()) {
        Some(i) => i,
        None => {
            return Err(ApiError::Unauthenticated(AuthFailure::InvalidCredentials));
        },
    };
    proof {
        lemma_first_from_found(store@, email_pred(creds.email@), 0);
    }
    let user = store.get(i);
    match verify_password(creds.password.as_str(), user.password.as_str()) {
        Ok(true) => {},
        _ => {
            return Err(ApiError::Unauthenticated(AuthFailure::InvalidCredentials));
        },
    }
    let id = user.id.to_hex();
    let token = issue_token(id.as_str(), user.role, now, secret);
    Ok(
        LoginResponse {
            token,
            user: UserResponse { id, name: user.name, email: user.email, role: user.role },
        },
    )
}

/// Updates a user's name, email and password. Only the user themself or an
/// admin may do so. A password that bcrypt accepts against the stored hash
/// keeps that hash; any other is hashed anew.
pub fn update_user(
    store: &mut UserStore,
    user: &AuthUser,
    id: &str,
    payload: RegisterUser,
    now: i64,
) -> (r: Result<User, ApiError>)
    requires
        old(store).wf(),
    ensures
        final(store).wf(),
        r is Err ==> final(store)@ == old(store)@,
        match owner_or_role_outcome(user.user_id@, user.role, id@, seq![UserRole::Admin]) {
            Err(e) => r == Err::<User, ApiError>(e),
            Ok(_) => match first_index(old(store)@, user_id_pred(parsed_id(id@)->Some_0)) {
                None => r == Err::<User, ApiError>(ApiError::NotFound),
                Some(i) => if email_used_except(old(store)@, payload.email@, i) {
                    r == Err::<User, ApiError>(ApiError::Validation(Invalid::EmailTaken))
                } else if bcrypt_verdict(payload.password@, old(store)@[i].password) == Some(true) {
                    r is Ok && r->Ok_0@ == edited_user(
                        old(store)@[i],
                        payload.name@,
                        payload.email@,
                        old(store)@[i].password,
                        now,
                    ) && final(store)@ == old(store)@.update(i, r->Ok_0@)
                } else {
                    (r is Err ==> r->Err_0 == ApiError::Transient) && (r is Ok ==> r->Ok_0@ == edited_user(
                        old(store)@[i],
                        payload.name@,
                        payload.email@,
                        r->Ok_0@.password,
                        now,
                    ) && bcrypt_verdict(payload.password@, r->Ok_0@.password) == Some(true)
                        && final(store)@ == old(store)@.update(i, r->Ok_0@))
                },
            },
        },
{
    let admins = [UserRole::Admin];
    assert(admins@ == seq![UserRole::Admin]);
    match require_owner_or_role(user, id, &admins) {
        Ok(()) => {},
        Err(e) => {
            return Err(e);
        },
    }
    let target = match ObjectId::parse_str(id) {
        Some(t) => t,
        None => {
            return Err(ApiError::Validation(Invalid::Id));
        },
    };
    let i = match store.find_by_id(&target) {
        Some(i) => i,
        None => {
            return Err(ApiError::NotFound);
        },
    };
    proof {
        lemma_first_from_found(store@, user_id_pred(target@), 0);
    }
    if store.email_used_except(payload.email.as_str(), i) {
        return Err(ApiError::Validation(Invalid::EmailTaken));
    }
    let existing = store.get(i);
    let unchanged = match verify_password(payload.password.as_str(), existing.password.as_str()) {
        Ok(same) => same,
        Err(_) => false,
    };
    let hash = if unchanged {
        existing.password
    } else {
        match hash_password(payload.password.as_str()) {
            Ok(h) => h,
            Err(_) => {
                return Err(ApiError::Transient);
            },
        }
    };
    let u = User {
        id: existing.id,
        name: payload.name,
        email: payload.email,
        password: hash,
        profile_image: existing.profile_image,
        role: existing.role,
        created_at: existing.created_at,
        updated_at: Some(now),
    };
    let updated = u.copy();
    store.replace_at(i, u);
    Ok(updated)
}

/// A token issued at `issued_at` and verified before it expires yields the
/// subject and role it was issued for.
pub proof fn lemma_issued_token_verifies(sub: Seq<char>, role: UserRole, issued_at: u64, now: u64)
    requires
        issued_at <= u64::MAX - TOKEN_TTL_SECS,
        now < issued_at + TOKEN_TTL_SECS,
    ensures
        fields_outcome(
            (Some(sub), Some(role_label(role)), Some((issued_at + TOKEN_TTL_SECS) as u64)),
            now,
        ) == Ok::<crate::token::ClaimsView, crate::token::TokenFault>(
            (sub, role, (issued_at + TOKEN_TTL_SECS) as u64),
        ),
{
    crate::role::lemma_label_round_trip(role);
}

/// The token a successful login hands out, sent back as `Bearer <token>`
/// before it expires, authenticates as the user it was issued to, with that
/// user's stored role.
pub proof fn lemma_login_token_verifies(
    s: Seq<UserView>,
    email: Seq<char>,
    password: Seq<char>,
    issued_at: u64,
    now: u64,
    secret: Seq<u8>,
)
    requires
        issued_at <= u64::MAX - TOKEN_TTL_SECS,
        now < issued_at + TOKEN_TTL_SECS,
        login_outcome(s, email, password, issued_at, secret) is Ok,
        is_jwt_text(login_outcome(s, email, password, issued_at, secret)->Ok_0.0),
    ensures
        ({
            let i = first_index(s, email_pred(email))->Some_0;
            let exp = (issued_at + TOKEN_TTL_SECS) as u64;
            let t = login_outcome(s, email, password, issued_at, secret)->Ok_0.0;
            &&& 0 <= i < s.len()
            &&& s[i].email == email
            &&& t == signed_token(s[i].id, role_label(s[i].role), exp, secret)
            &&& bearer_token_of(bearer_header(t)) == Some(t)
            &&& fields_outcome((Some(s[i].id), Some(role_label(s[i].role)), Some(exp)), now)
                == Ok::<crate::token::ClaimsView, crate::token::TokenFault>((s[i].id, s[i].role, exp))
            &&& signed_principal(s[i].id, role_label(s[i].role), exp, now) == Ok::<
                PrincipalView,
                ApiError,
            >((s[i].id, s[i].role))
        }),
{
    lemma_first_from_found(s, email_pred(email), 0);
    let i = first_index(s, email_pred(email))->Some_0;
    lemma_issued_token_verifies(s[i].id, s[i].role, issued_at, now);
    lemma_bearer_header_of_token(login_outcome(s, email, password, issued_at, secret)->Ok_0.0);
}

/// Right after a registration, logging in with the same email and password
/// succeeds, and the token carries the new user's id and role; a wrong
/// password for that email fails exactly as an unknown email does.
pub proof fn lemma_register_then_login(
    s: Seq<UserView>,
    u: UserView,
    password: Seq<char>,
    wrong: Seq<char>,
    unknown: Seq<char>,
    now: u64,
    secret: Seq<u8>,
)
    requires
        !email_used_except(s, u.email, -1),
        bcrypt_verdict(password, u.password) == Some(true),
        bcrypt_verdict(wrong, u.password) != Some(true),
        !email_used_except(s.push(u), unknown, -1),
    ensures
        login_outcome(s.push(u), u.email, password, now, secret) == Ok::<LoginView, ApiError>(
            (
                signed_token(u.id, role_label(u.role), (now + TOKEN_TTL_SECS) as u64, secret),
                u.id,
                u.name,
                u.email,
                u.role,
            ),
        ),
        login_outcome(s.push(u), u.email, wrong, now, secret) == login_outcome(
            s.push(u),
            unknown,
            password,
            now,
            secret,
        ),
        login_outcome(s.push(u), unknown, password, now, secret) == Err::<LoginView, ApiError>(
            ApiError::Unauthenticated(AuthFailure::InvalidCredentials),
        ),
{
    let t = s.push(u);
    let pred = email_pred(u.email);
    assert forall|j: int| 0 <= j < s.len() implies !(#[trigger] pred(t[j])) by {
        assert(t[j] == s[j]);
        if pred(t[j]) {
            assert(s[j].email == u.email);
        }
    }
    lemma_first_from_none(s, pred, 0);
    lemma_found_at_end(s, u, pred, 0);
    let other = email_pred(unknown);
    assert forall|j: int| 0 <= j < t.len() implies !(#[trigger] other(t[j])) by {
        if other(t[j]) {
            assert(t[j].email == unknown);
            assert(j != -1);
        }
    }
    lemma_first_from_none(t, other, 0);
}

proof fn lemma_found_at_end(
    s: Seq<UserView>,
    u: UserView,
    pred: spec_fn(UserView) -> bool,
    k: int,
)
    requires
        0 <= k <= s.len(),
        pred(u),
        forall|j: int| 0 <= j < s.len() ==> !(#[trigger] pred(s.push(u)[j])),
    ensures
        crate::search::first_from(s.push(u), pred, k) == Some(s.len() as int),
    decreases s.len() - k,
{
    if k < s.len() {
        assert(!pred(s.push(u)[k]));
        lemma_found_at_end(s, u, pred, k + 1);
    } else {
        assert(s.push(u)[k] == u);
    }
}

} // verus!
