use fleet_access::auth::{authenticate, bearer_token};
use fleet_access::error::{ApiError, AuthFailure, Invalid};
use fleet_access::ids::ObjectId;
use fleet_access::policy::{require_owner_or_role, require_role, AuthUser};
use fleet_access::role::UserRole;
use fleet_access::token::{
    check_token_fields, issue_claims, issue_token, verify_token, TokenFault, TokenFields,
    TOKEN_TTL_SECS,
};

const SECRET: &[u8] = b"test-secret";
const ALICE: &str = "64b7f0c2a1b2c3d4e5f60718";
const BOB: &str = "64b7f0c2a1b2c3d4e5f60719";
const NOW: u64 = 1_700_000_000;

fn principal(id: &str, role: UserRole) -> AuthUser {
    AuthUser { user_id: id.to_string(), role }
}

#[test]
fn role_defaults_to_user() {
    assert_eq!(UserRole::default(), UserRole::User);
}

#[test]
fn role_labels_round_trip() {
    assert_eq!(UserRole::Admin.label(), "Admin");
    assert_eq!(UserRole::User.label(), "User");
    assert_eq!(UserRole::from_label("Admin"), Some(UserRole::Admin));
    assert_eq!(UserRole::from_label("User"), Some(UserRole::User));
    assert_eq!(UserRole::from_label("admin"), None);
}

#[test]
fn object_id_parsing() {
    let id = ObjectId::parse_str(ALICE).unwrap();
    assert_eq!(id.to_hex(), ALICE);
    let upper = ObjectId::parse_str("64B7F0C2A1B2C3D4E5F60718").unwrap();
    assert!(upper == id);
    assert_eq!(upper.to_hex(), ALICE);
    assert!(ObjectId::parse_str("64b7f0c2a1b2c3d4e5f6071").is_none());
    assert!(ObjectId::parse_str("64b7f0c2a1b2c3d4e5f607189").is_none());
    assert!(ObjectId::parse_str("64b7f0c2a1b2c3d4e5f6071g").is_none());
    assert!(ObjectId::parse_str("").is_none());
}

#[test]
fn bearer_header_forms() {
    assert_eq!(bearer_token("Bearer abc.def-_~+/="), Some("abc.def-_~+/=".to_string()));
    assert_eq!(bearer_token("bEaReR   xyz"), Some("xyz".to_string()));
    assert_eq!(bearer_token("Bearer"), None);
    assert_eq!(bearer_token("Bearer "), None);
    assert_eq!(bearer_token("Bearerxyz"), None);
    assert_eq!(bearer_token("Basic xyz"), None);
    assert_eq!(bearer_token("Bearer a b"), None);
    assert_eq!(bearer_token(""), None);
}

#[test]
fn issued_claims_expire_after_a_day() {
    let c = issue_claims(ALICE, UserRole::User, NOW);
    assert_eq!(c.sub, ALICE);
    assert_eq!(c.role, UserRole::User);
    assert_eq!(c.exp, NOW + 86400);
    assert_eq!(TOKEN_TTL_SECS, 86400);
}

#[test]
fn issued_token_verifies_to_its_claims() {
    let token = issue_token(ALICE, UserRole::Admin, NOW, SECRET);
    assert_eq!(token.matches('.').count(), 2);
    let claims = verify_token(&token, SECRET, NOW).unwrap();
    assert_eq!(claims.sub, ALICE);
    assert_eq!(claims.role, UserRole::Admin);
    assert_eq!(claims.exp, NOW + 86400);
    let later = verify_token(&token, SECRET, NOW + 86399).unwrap();
    assert_eq!(later.sub, ALICE);
}

#[test]
fn expired_token_is_refused() {
    let token = issue_token(ALICE, UserRole::User, NOW, SECRET);
    assert_eq!(verify_token(&token, SECRET, NOW + 86400).unwrap_err(), TokenFault::Expired);
    assert_eq!(verify_token(&token, SECRET, NOW + 90000).unwrap_err(), TokenFault::Expired);
    let header = format!("Bearer {}", token);
    assert_eq!(
        authenticate(Some(&header), SECRET, NOW + 86400).unwrap_err(),
        ApiError::Unauthenticated(AuthFailure::InvalidToken)
    );
}

#[test]
fn expired_token_with_foreign_signature_is_refused() {
    let token = issue_token(ALICE, UserRole::User, NOW, b"other-secret");
    let header = format!("Bearer {}", token);
    assert_eq!(
        authenticate(Some(&header), SECRET, NOW + 86400).unwrap_err(),
        ApiError::Unauthenticated(AuthFailure::InvalidToken)
    );
}

#[test]
fn foreign_signature_is_refused() {
    let token = issue_token(ALICE, UserRole::User, NOW, b"other-secret");
    assert_eq!(verify_token(&token, SECRET, NOW).unwrap_err(), TokenFault::BadSignature);
}

#[test]
fn garbage_token_is_malformed() {
    assert_eq!(verify_token("not-a-token", SECRET, NOW).unwrap_err(), TokenFault::Malformed);
    assert_eq!(verify_token("", SECRET, NOW).unwrap_err(), TokenFault::Malformed);
}

#[test]
fn token_field_checks() {
    let ok = TokenFields { sub: Some(ALICE.to_string()), role: Some("User".to_string()), exp: Some(NOW + 1) };
    let c = check_token_fields(&ok, NOW).unwrap();
    assert_eq!(c.sub, ALICE);
    assert_eq!(c.role, UserRole::User);
    assert_eq!(c.exp, NOW + 1);
    let at_expiry = TokenFields { sub: Some(ALICE.to_string()), role: Some("Admin".to_string()), exp: Some(NOW) };
    assert_eq!(check_token_fields(&at_expiry, NOW).unwrap_err(), TokenFault::Expired);
    let bad_role = TokenFields { sub: Some(ALICE.to_string()), role: Some("Root".to_string()), exp: Some(NOW + 1) };
    assert_eq!(check_token_fields(&bad_role, NOW).unwrap_err(), TokenFault::Malformed);
    let no_sub = TokenFields { sub: None, role: Some("User".to_string()), exp: Some(NOW + 1) };
    assert_eq!(check_token_fields(&no_sub, NOW).unwrap_err(), TokenFault::Malformed);
    let no_exp = TokenFields { sub: Some(ALICE.to_string()), role: Some("User".to_string()), exp: None };
    assert_eq!(check_token_fields(&no_exp, NOW).unwrap_err(), TokenFault::Malformed);
}

#[test]
fn authenticate_outcomes() {
    assert_eq!(
        authenticate(None, SECRET, NOW).unwrap_err(),
        ApiError::Unauthenticated(AuthFailure::MissingHeader)
    );
    assert_eq!(
        authenticate(Some("Token abc"), SECRET, NOW).unwrap_err(),
        ApiError::Unauthenticated(AuthFailure::MalformedHeader)
    );
    assert_eq!(
        authenticate(Some("Bearer abc.def.ghi"), SECRET, NOW).unwrap_err(),
        ApiError::Unauthenticated(AuthFailure::InvalidToken)
    );
    let token = issue_token(BOB, UserRole::Admin, NOW, SECRET);
    let header = format!("Bearer {}", token);
    let user = authenticate(Some(&header), SECRET, NOW + 10).unwrap();
    assert_eq!(user.user_id, BOB);
    assert_eq!(user.role, UserRole::Admin);
}

#[test]
fn role_check() {
    let admin = principal(ALICE, UserRole::Admin);
    let user = principal(BOB, UserRole::User);
    assert_eq!(require_role(&admin, &[UserRole::Admin]), Ok(()));
    assert_eq!(require_role(&user, &[UserRole::Admin]), Err(ApiError::Forbidden));
    assert_eq!(require_role(&user, &[UserRole::Admin, UserRole::User]), Ok(()));
    assert_eq!(require_role(&admin, &[]), Err(ApiError::Forbidden));
}

#[test]
fn owner_or_role_check() {
    let user = principal(BOB, UserRole::User);
    let admin = principal(ALICE, UserRole::Admin);
    assert_eq!(require_owner_or_role(&user, BOB, &[UserRole::Admin]), Ok(()));
    assert_eq!(
        require_owner_or_role(&user, "64B7F0C2A1B2C3D4E5F60719", &[UserRole::Admin]),
        Ok(())
    );
    assert_eq!(require_owner_or_role(&user, ALICE, &[UserRole::Admin]), Err(ApiError::Forbidden));
    assert_eq!(require_owner_or_role(&admin, BOB, &[UserRole::Admin]), Ok(()));
    assert_eq!(
        require_owner_or_role(&admin, "not-an-id", &[UserRole::Admin]),
        Err(ApiError::Validation(Invalid::Id))
    );
    let broken = principal("nope", UserRole::Admin);
    assert_eq!(
        require_owner_or_role(&broken, BOB, &[UserRole::Admin]),
        Err(ApiError::Validation(Invalid::Id))
    );
}

#[test]
fn error_categories_and_messages() {
    assert_eq!(ApiError::Forbidden.category(), "forbidden");
    assert_eq!(ApiError::NotFound.category(), "not_found");
    assert_eq!(ApiError::Transient.category(), "transient");
    assert_eq!(ApiError::Validation(Invalid::Id).category(), "validation");
    assert_eq!(
        ApiError::Unauthenticated(AuthFailure::MissingHeader).category(),
        "unauthenticated"
    );
    assert_eq!(
        ApiError::Unauthenticated(AuthFailure::InvalidToken).message(),
        "Invalid or expired token"
    );
    assert_eq!(ApiError::Validation(Invalid::DueDate).message(), "Invalid due date");
}
