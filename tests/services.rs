use fleet_access::auth::authenticate;
use fleet_access::dates::parse_due_date;
use fleet_access::error::{ApiError, AuthFailure, Invalid};
use fleet_access::forms::{
    parse_requested_role, registration_field, upload_path, vehicle_field, RegistrationField,
    RegistrationForm, VehicleField, VehicleForm,
};
use fleet_access::ids::ObjectId;
use fleet_access::policy::AuthUser;
use fleet_access::role::UserRole;
use fleet_access::task_service::{
    create_task, default_priority, default_status, delete_task, get_all_tasks, get_task_by_id,
    update_task,
};
use fleet_access::tasks::{CreateTask, TaskStore};
use fleet_access::text::sanitize_filename;
use fleet_access::token::verify_token;
use fleet_access::user_service::{login_user, register_user, register_user_as, update_user};
use fleet_access::users::{LoginUser, RegisterUser, UserStore};
use fleet_access::vehicles::{create_vehicle, update_vehicle, CreateVehicle, VehicleStore};

const SECRET: &[u8] = b"service-secret";
const ALICE: &str = "64b7f0c2a1b2c3d4e5f60718";
const BOB: &str = "64b7f0c2a1b2c3d4e5f60719";
const ROOT: &str = "64b7f0c2a1b2c3d4e5f6071a";
const T1: &str = "650000000000000000000001";
const T2: &str = "650000000000000000000002";
const V1: &str = "660000000000000000000001";

fn oid(s: &str) -> ObjectId {
    ObjectId::parse_str(s).unwrap()
}

fn principal(id: &str, role: UserRole) -> AuthUser {
    AuthUser { user_id: id.to_string(), role }
}

fn payload(title: &str) -> CreateTask {
    CreateTask {
        title: title.to_string(),
        description: Some("d".to_string()),
        status: None,
        priority: Some("high".to_string()),
        assignee: None,
        due_date: Some("2024-01-02".to_string()),
    }
}

fn store_with_alice_task() -> TaskStore {
    let mut store = TaskStore::new();
    create_task(&mut store, &principal(ALICE, UserRole::User), payload("first"), oid(T1), 1000)
        .unwrap();
    store
}

#[test]
fn defaults_for_tasks() {
    assert_eq!(default_status(), "todo");
    assert_eq!(default_priority(), "medium");
}

#[test]
fn due_date_forms() {
    assert_eq!(parse_due_date(&None), Ok(None));
    assert_eq!(
        parse_due_date(&Some("2024-01-02T03:04:05Z".to_string())),
        Ok(Some(1_704_164_645_000))
    );
    assert_eq!(
        parse_due_date(&Some("2024-01-02T03:04:05+01:00".to_string())),
        Ok(Some(1_704_161_045_000))
    );
    assert_eq!(parse_due_date(&Some("2024-01-02".to_string())), Ok(Some(1_704_153_600_000)));
    assert_eq!(
        parse_due_date(&Some("next tuesday".to_string())),
        Err(ApiError::Validation(Invalid::DueDate))
    );
}

#[test]
fn create_task_stamps_owner_and_defaults() {
    let store = store_with_alice_task();
    assert_eq!(store.len(), 1);
    let t = store.get(0);
    assert_eq!(t.id.to_hex(), T1);
    assert_eq!(t.created_by.to_hex(), ALICE);
    assert_eq!(t.status, "todo");
    assert_eq!(t.priority, "high");
    assert_eq!(t.due_date, Some(1_704_153_600_000));
    assert_eq!(t.created_at, 1000);
    assert_eq!(t.updated_at, 1000);
}

#[test]
fn create_task_errors() {
    let mut store = store_with_alice_task();
    let dup = create_task(&mut store, &principal(BOB, UserRole::User), payload("x"), oid(T1), 5);
    assert_eq!(dup.unwrap_err(), ApiError::Transient);
    let bad_user = create_task(&mut store, &principal("bob", UserRole::User), payload("x"), oid(T2), 5);
    assert_eq!(bad_user.unwrap_err(), ApiError::Validation(Invalid::Id));
    let mut bad_date = payload("x");
    bad_date.due_date = Some("soon".to_string());
    let r = create_task(&mut store, &principal(BOB, UserRole::User), bad_date, oid(T2), 5);
    assert_eq!(r.unwrap_err(), ApiError::Validation(Invalid::DueDate));
    assert_eq!(store.len(), 1);
}

#[test]
fn owner_updates_task() {
    let mut store = store_with_alice_task();
    let mut p = payload("renamed");
    p.status = Some("done".to_string());
    p.priority = None;
    let t = update_task(&mut store, &principal(ALICE, UserRole::User), T1, p, 2000).unwrap();
    assert_eq!(t.title, "renamed");
    assert_eq!(t.status, "done");
    assert_eq!(t.priority, "medium");
    assert_eq!(t.created_by.to_hex(), ALICE);
    assert_eq!(t.created_at, 1000);
    assert_eq!(t.updated_at, 2000);
    assert_eq!(store.get(0).title, "renamed");
}

#[test]
fn other_user_cannot_update_or_delete_task() {
    let mut store = store_with_alice_task();
    let before = store.get(0);
    let bob = principal(BOB, UserRole::User);
    let r = update_task(&mut store, &bob, T1, payload("stolen"), 2000);
    assert_eq!(r.unwrap_err(), ApiError::NotFound);
    assert_eq!(delete_task(&mut store, &bob, T1), Err(ApiError::NotFound));
    assert_eq!(store.len(), 1);
    let after = store.get(0);
    assert_eq!(after.title, before.title);
    assert_eq!(after.updated_at, before.updated_at);
}

#[test]
fn admin_updates_and_deletes_any_task() {
    let mut store = store_with_alice_task();
    let root = principal(ROOT, UserRole::Admin);
    let t = update_task(&mut store, &root, T1, payload("by admin"), 3000).unwrap();
    assert_eq!(t.title, "by admin");
    assert_eq!(t.created_by.to_hex(), ALICE);
    assert_eq!(delete_task(&mut store, &root, T1), Ok(()));
    assert_eq!(store.len(), 0);
    assert_eq!(delete_task(&mut store, &root, T1), Err(ApiError::NotFound));
}

#[test]
fn task_update_with_bad_ids() {
    let mut store = store_with_alice_task();
    let alice = principal(ALICE, UserRole::User);
    let r = update_task(&mut store, &alice, "zzz", payload("x"), 1);
    assert_eq!(r.unwrap_err(), ApiError::Validation(Invalid::Id));
    assert_eq!(delete_task(&mut store, &alice, "zzz"), Err(ApiError::Validation(Invalid::Id)));
    let r = update_task(&mut store, &alice, T2, payload("x"), 1);
    assert_eq!(r.unwrap_err(), ApiError::NotFound);
}

#[test]
fn repeated_task_update_is_idempotent() {
    let mut store = store_with_alice_task();
    let alice = principal(ALICE, UserRole::User);
    let first = update_task(&mut store, &alice, T1, payload("same"), 2000).unwrap();
    let second = update_task(&mut store, &alice, T1, payload("same"), 2500).unwrap();
    assert_eq!(store.len(), 1);
    assert_eq!(first.title, second.title);
    assert_eq!(first.description, second.description);
    assert_eq!(first.status, second.status);
    assert_eq!(first.priority, second.priority);
    assert_eq!(first.due_date, second.due_date);
    assert_eq!(first.created_at, second.created_at);
    assert_eq!(second.updated_at, 2500);
}

#[test]
fn task_reads_and_scopes() {
    let mut store = store_with_alice_task();
    create_task(&mut store, &principal(BOB, UserRole::User), payload("bob's"), oid(T2), 1500)
        .unwrap();
    assert_eq!(get_all_tasks(&store, None).unwrap().len(), 2);
    let bobs = get_all_tasks(&store, Some(BOB)).unwrap();
    assert_eq!(bobs.len(), 1);
    assert_eq!(bobs[0].title, "bob's");
    assert_eq!(get_all_tasks(&store, Some("x")).unwrap_err(), ApiError::Validation(Invalid::Id));
    assert_eq!(get_task_by_id(&store, T1, None).unwrap().title, "first");
    assert_eq!(get_task_by_id(&store, T1, Some(BOB)).unwrap_err(), ApiError::NotFound);
    assert_eq!(get_task_by_id(&store, "bad", None).unwrap_err(), ApiError::Validation(Invalid::Id));
}

fn vehicle_store() -> VehicleStore {
    let mut store = VehicleStore::new();
    let v = CreateVehicle { make: "Ford".to_string(), model: "T".to_string(), year: "1908".to_string() };
    create_vehicle(
        &mut store,
        &principal(ALICE, UserRole::User),
        v,
        Some(vec!["a.jpg".to_string()]),
        oid(V1),
        10,
    )
    .unwrap();
    store
}

#[test]
fn create_vehicle_stamps_owner() {
    let store = vehicle_store();
    let v = store.get(0);
    assert_eq!(v.user_id.to_hex(), ALICE);
    assert_eq!(v.make, "Ford");
    assert_eq!(v.files, Some(vec!["a.jpg".to_string()]));
    assert_eq!(v.created_at, 10);
    let mut store = store;
    let again = CreateVehicle { make: "A".to_string(), model: "B".to_string(), year: "C".to_string() };
    let r = create_vehicle(&mut store, &principal(ALICE, UserRole::User), again, None, oid(V1), 11);
    assert_eq!(r.unwrap_err(), ApiError::Transient);
}

#[test]
fn admin_updates_any_vehicle() {
    let mut store = vehicle_store();
    let patch = CreateVehicle { make: "".to_string(), model: "A".to_string(), year: "".to_string() };
    let v = update_vehicle(&mut store, &principal(ROOT, UserRole::Admin), V1, patch, Some(vec![]), 20)
        .unwrap();
    assert_eq!(v.make, "Ford");
    assert_eq!(v.model, "A");
    assert_eq!(v.year, "1908");
    assert_eq!(v.files, Some(vec![]));
    assert_eq!(v.user_id.to_hex(), ALICE);
    assert_eq!(v.updated_at, 20);
}

#[test]
fn user_cannot_update_vehicle_even_own() {
    let mut store = vehicle_store();
    let patch = CreateVehicle { make: "X".to_string(), model: "".to_string(), year: "".to_string() };
    let r = update_vehicle(&mut store, &principal(ALICE, UserRole::User), V1, patch, None, 20);
    assert_eq!(r.unwrap_err(), ApiError::Forbidden);
    assert_eq!(store.get(0).make, "Ford");
}

#[test]
fn vehicle_update_errors() {
    let mut store = vehicle_store();
    let root = principal(ROOT, UserRole::Admin);
    let p = || CreateVehicle { make: "X".to_string(), model: "".to_string(), year: "".to_string() };
    assert_eq!(
        update_vehicle(&mut store, &root, "bad", p(), None, 1).unwrap_err(),
        ApiError::Validation(Invalid::Id)
    );
    assert_eq!(update_vehicle(&mut store, &root, T1, p(), None, 1).unwrap_err(), ApiError::NotFound);
}

#[test]
fn form_field_names() {
    assert_eq!(registration_field(" Name "), RegistrationField::Name);
    assert_eq!(registration_field("EMAIL"), RegistrationField::Email);
    assert_eq!(registration_field("password"), RegistrationField::Password);
    assert_eq!(registration_field("Role"), RegistrationField::Role);
    assert_eq!(registration_field("profile_image"), RegistrationField::ProfileImage);
    assert_eq!(registration_field("avatar"), RegistrationField::Other);
    assert_eq!(vehicle_field("files[]"), VehicleField::Files);
    assert_eq!(vehicle_field(" FILE"), VehicleField::Files);
    assert_eq!(vehicle_field("Make"), VehicleField::Make);
    assert_eq!(vehicle_field("colour"), VehicleField::Other);
}

#[test]
fn requested_roles() {
    assert_eq!(parse_requested_role("ADMIN"), UserRole::Admin);
    assert_eq!(parse_requested_role("user"), UserRole::User);
    assert_eq!(parse_requested_role("superuser"), UserRole::User);
}

#[test]
fn registration_form_requires_fields() {
    let mut form = RegistrationForm::new();
    form.accept_text(RegistrationField::Name, "  Ann ");
    form.accept_text(RegistrationField::Email, "ann@x.com");
    form.accept_text(RegistrationField::Role, "Admin");
    form.accept_profile_image("./uploads/p.png".to_string());
    assert_eq!(form.name, "Ann");
    let (u, image) = {
        let mut f = form;
        f.accept_text(RegistrationField::Password, " pw ");
        f.finish().unwrap()
    };
    assert_eq!(u.password, "pw");
    assert_eq!(u.role, Some(UserRole::Admin));
    assert_eq!(image, Some("./uploads/p.png".to_string()));
    let mut empty = RegistrationForm::new();
    empty.accept_text(RegistrationField::Name, "Ann");
    assert_eq!(empty.finish().unwrap_err(), ApiError::Validation(Invalid::MissingFields));
}

#[test]
fn vehicle_form_collects_files() {
    let mut form = VehicleForm::new();
    form.accept_text(VehicleField::Make, " Ford ");
    form.accept_text(VehicleField::Model, "T");
    form.accept_file("a".to_string());
    form.accept_file("b".to_string());
    let (v, files) = {
        let mut f = form;
        f.accept_text(VehicleField::Year, "1908");
        f.finish_new().unwrap()
    };
    assert_eq!(v.make, "Ford");
    assert_eq!(files, vec!["a".to_string(), "b".to_string()]);
    let mut partial = VehicleForm::new();
    partial.accept_text(VehicleField::Make, "Ford");
    let (edit, none) = partial.finish_edit();
    assert_eq!(edit.model, "");
    assert!(none.is_empty());
    let mut missing = VehicleForm::new();
    missing.accept_text(VehicleField::Make, "Ford");
    assert_eq!(missing.finish_new().unwrap_err(), ApiError::Validation(Invalid::MissingFields));
}

#[test]
fn file_names_are_sanitized() {
    assert_eq!(sanitize_filename("my photo (1).JPG"), "myphoto1.JPG");
    assert_eq!(sanitize_filename("../../etc/passwd"), "....etcpasswd");
    assert_eq!(sanitize_filename(""), "");
    assert_eq!(upload_path("./uploads", "u1", Some("a b.png")), "./uploads/u1_ab.png");
    assert_eq!(upload_path("./uploads", "u1", None), "./uploads/u1_file");
}

fn register(store: &mut UserStore, id: &str, email: &str, password: &str, role: Option<UserRole>) {
    let p = RegisterUser {
        name: "A".to_string(),
        email: email.to_string(),
        password: password.to_string(),
        role,
    };
    register_user_as(store, oid(id), p, None, 100).unwrap();
}

#[test]
fn registration_then_login_round_trip() {
    let mut users = UserStore::new();
    let p = RegisterUser {
        name: "A".to_string(),
        email: "a@x.com".to_string(),
        password: "p".to_string(),
        role: None,
    };
    let u = register_user_as(&mut users, oid(ALICE), p, None, 100).unwrap();
    assert_eq!(u.role, UserRole::User);
    assert_ne!(u.password, "p");
    assert_eq!(users.get(0).role, UserRole::User);
    let creds = LoginUser { email: "a@x.com".to_string(), password: "p".to_string() };
    let login = login_user(&users, creds, 5000, SECRET).unwrap();
    assert_eq!(login.user.id, ALICE);
    assert_eq!(login.user.role, UserRole::User);
    let claims = verify_token(&login.token, SECRET, 5001).unwrap();
    assert_eq!(claims.sub, ALICE);
    assert_eq!(claims.role, UserRole::User);
    assert_eq!(claims.exp, 5000 + 86400);

    let me = authenticate(Some(&format!("Bearer {}", login.token)), SECRET, 5001).unwrap();
    let edit = |pw: &str| RegisterUser {
        name: "A2".to_string(),
        email: "a@x.com".to_string(),
        password: pw.to_string(),
        role: None,
    };
    assert_eq!(update_user(&mut users, &me, BOB, edit("p"), 6000).unwrap_err(), ApiError::Forbidden);
    let stored_hash = users.get(0).password;
    let updated = update_user(&mut users, &me, ALICE, edit("p"), 6000).unwrap();
    assert_eq!(updated.name, "A2");
    assert_eq!(updated.password, stored_hash);
    assert_eq!(updated.updated_at, Some(6000));
    assert_eq!(users.get(0).role, UserRole::User);
    let rehashed = update_user(&mut users, &me, ALICE, edit(&stored_hash), 6001).unwrap();
    assert_ne!(rehashed.password, stored_hash);
    assert!(token_chars_only(&login.token));
}

#[test]
fn login_failures_are_indistinguishable() {
    let mut users = UserStore::new();
    register(&mut users, ALICE, "a@x.com", "right", None);
    let wrong = login_user(
        &users,
        LoginUser { email: "a@x.com".to_string(), password: "wrong".to_string() },
        1,
        SECRET,
    );
    let unknown = login_user(
        &users,
        LoginUser { email: "b@x.com".to_string(), password: "right".to_string() },
        1,
        SECRET,
    );
    assert_eq!(wrong.unwrap_err(), ApiError::Unauthenticated(AuthFailure::InvalidCredentials));
    assert_eq!(unknown.unwrap_err(), ApiError::Unauthenticated(AuthFailure::InvalidCredentials));
}

#[test]
fn registration_conflicts() {
    let mut users = UserStore::new();
    register(&mut users, ALICE, "a@x.com", "p", Some(UserRole::Admin));
    assert_eq!(users.get(0).role, UserRole::Admin);
    let same_email = RegisterUser {
        name: "B".to_string(),
        email: "a@x.com".to_string(),
        password: "q".to_string(),
        role: None,
    };
    assert_eq!(
        register_user_as(&mut users, oid(BOB), same_email, None, 1).unwrap_err(),
        ApiError::Validation(Invalid::EmailTaken)
    );
    let same_id = RegisterUser {
        name: "B".to_string(),
        email: "b@x.com".to_string(),
        password: "q".to_string(),
        role: None,
    };
    assert_eq!(
        register_user_as(&mut users, oid(ALICE), same_id, None, 1).unwrap_err(),
        ApiError::Transient
    );
    assert_eq!(users.len(), 1);
}

#[test]
fn register_with_fresh_id() {
    let mut users = UserStore::new();
    let p = RegisterUser {
        name: "C".to_string(),
        email: "c@x.com".to_string(),
        password: "pw".to_string(),
        role: None,
    };
    let u = register_user(&mut users, p, Some("./uploads/c.png".to_string()), 7).unwrap();
    assert_eq!(u.id.to_hex().len(), 24);
    assert_eq!(u.profile_image, Some("./uploads/c.png".to_string()));
    assert_eq!(users.len(), 1);
}

#[test]
fn admin_updates_other_user_and_rehashes() {
    let mut users = UserStore::new();
    register(&mut users, ALICE, "a@x.com", "old", None);
    register(&mut users, BOB, "b@x.com", "x", None);
    let root = principal(ROOT, UserRole::Admin);
    let p = RegisterUser {
        name: "Alice".to_string(),
        email: "b@x.com".to_string(),
        password: "new".to_string(),
        role: None,
    };
    assert_eq!(
        update_user(&mut users, &root, ALICE, p, 9).unwrap_err(),
        ApiError::Validation(Invalid::EmailTaken)
    );
    let p = RegisterUser {
        name: "Alice".to_string(),
        email: "alice@x.com".to_string(),
        password: "new".to_string(),
        role: Some(UserRole::Admin),
    };
    let old_hash = users.get(0).password;
    let u = update_user(&mut users, &root, ALICE, p, 9).unwrap();
    assert_eq!(u.role, UserRole::User);
    assert_ne!(u.password, old_hash);
    assert_ne!(u.password, "new");
    let creds = LoginUser { email: "alice@x.com".to_string(), password: "new".to_string() };
    assert!(login_user(&users, creds, 10, SECRET).is_ok());
    let missing = RegisterUser {
        name: "Z".to_string(),
        email: "z@x.com".to_string(),
        password: "z".to_string(),
        role: None,
    };
    assert_eq!(update_user(&mut users, &root, T1, missing, 9).unwrap_err(), ApiError::NotFound);
}

fn token_chars_only(t: &str) -> bool {
    !t.is_empty() && t.chars().all(|c| c.is_ascii_alphanumeric() || c == '-' || c == '_' || c == '.')
}
