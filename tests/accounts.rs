use expense_tracker::auth_service::{
    admit_login, bearer_token, make_unauthorized_response, password_verify, AuthAccessData, AuthService, TokenClaims,
};
use expense_tracker::date_time::DateTime;
use expense_tracker::models::{Database, RegisterForm, UserStatus};
use expense_tracker::project_repository::ProjectRepository;
use expense_tracker::user_repository::{password_hash, user_status_is, user_stringy_status, UserRepository};

const SALT: &str = "somesaltvalue";

fn now() -> DateTime {
    DateTime { year: 2024, month: 3, day: 15, hour: 10, minute: 30, second: 0 }
}

fn register(db: &mut Database, email: &str) -> u128 {
    let form = RegisterForm {
        first_name: "Ada".to_string(),
        last_name: "Lovelace".to_string(),
        email: email.to_string(),
        password: "secret".to_string(),
    };
    UserRepository.create(db, form, SALT, now()).unwrap().user_id
}

#[test]
fn registration_hashes_password() {
    let mut db = Database::new();
    let id = register(&mut db, "ada@example.com");
    let u = UserRepository.find_by_id(&db, id).unwrap();
    assert_eq!(u.status, "active");
    assert_ne!(u.password, "secret");
    assert_eq!(Some(u.password.clone()), password_hash("secret", SALT));
    assert_eq!(password_verify(&u.password, "secret"), Some(true));
    assert_eq!(password_verify(&u.password, "wrong"), Some(false));
    assert_eq!(password_verify("not a hash", "secret"), None);
    assert_eq!(UserRepository.find_by_email(&db, "ada@example.com".to_string()).unwrap().user_id, id);
    assert!(UserRepository.find_by_email(&db, "bob@example.com".to_string()).is_none());
}

#[test]
fn registration_errors() {
    let mut db = Database::new();
    register(&mut db, "ada@example.com");
    let form = RegisterForm {
        first_name: "A".to_string(),
        last_name: "B".to_string(),
        email: "ada@example.com".to_string(),
        password: "x".to_string(),
    };
    let r = UserRepository.create(&mut db, form, SALT, now());
    assert_eq!(r.err(), Some("User with such email address already exists".to_string()));
    let form = RegisterForm {
        first_name: "A".to_string(),
        last_name: "B".to_string(),
        email: "b@example.com".to_string(),
        password: "x".to_string(),
    };
    let r = UserRepository.create(&mut db, form, "short", now());
    assert_eq!(r.err(), Some("Failed to hash password".to_string()));
    assert_eq!(db.users.len(), 1);
}

#[test]
fn login_outcomes() {
    let mut db = Database::new();
    let id = register(&mut db, "ada@example.com");
    let u = AuthService.login(&db, "ada@example.com".to_string(), "secret".to_string()).unwrap();
    assert_eq!(u.user_id, id);
    let bad = "Invalid email address or password".to_string();
    assert_eq!(AuthService.login(&db, "ada@example.com".to_string(), "nope".to_string()).err(), Some(bad.clone()));
    assert_eq!(AuthService.login(&db, "who@example.com".to_string(), "secret".to_string()).err(), Some(bad));
    db.users[0].status = user_stringy_status(UserStatus::Pending).to_string();
    assert_eq!(
        AuthService.login(&db, "ada@example.com".to_string(), "secret".to_string()).err(),
        Some("Your account is not activated yet".to_string())
    );
    db.users[0].status = "inactive".to_string();
    assert_eq!(
        AuthService.login(&db, "ada@example.com".to_string(), "secret".to_string()).err(),
        Some("Your account is not active".to_string())
    );
    assert_eq!(admit_login(None, Some(true)).err(), Some("Invalid email address or password".to_string()));
    AuthService.logout();
}

#[test]
fn token_subjects() {
    let mut db = Database::new();
    let id = register(&mut db, "ada@example.com");
    let sub = uuid::Uuid::from_u128(id).to_string();
    assert_eq!(AuthService.authenticate(&db, &sub).unwrap().user_id, id);
    assert_eq!(AuthService.authenticate(&db, "junk").err(), Some("Invalid auth token".to_string()));
    let stranger = uuid::Uuid::from_u128(id ^ 1).to_string();
    assert_eq!(
        AuthService.authenticate(&db, &stranger).err(),
        Some("Invalid auth token, user not found".to_string())
    );
}

#[test]
fn token_claims_and_headers() {
    let c = TokenClaims::issue("u".to_string(), 1000, 60).unwrap();
    assert_eq!((c.iat, c.exp), (1000, 4600));
    assert!(TokenClaims::issue("u".to_string(), -1, 60).is_none());
    assert!(TokenClaims::issue("u".to_string(), 100, -2).is_none());
    assert_eq!(bearer_token("Bearer abc.def"), Some("abc.def".to_string()));
    assert_eq!(bearer_token("Bear"), None);
    let a = AuthAccessData::bearer("t".to_string(), 30);
    assert_eq!((a.access_token.as_str(), a.token_type.as_str(), a.expires_in), ("t", "bearer", 30));
    let e = make_unauthorized_response("Invalid auth token");
    assert!(!e.success);
    assert_eq!(e.status, 401);
    assert_eq!(e.message, "Invalid auth token");
}

#[test]
fn status_texts() {
    assert_eq!(user_stringy_status(UserStatus::Active), "active");
    assert_eq!(user_stringy_status(UserStatus::Inactive), "inactive");
    assert_eq!(user_stringy_status(UserStatus::Pending), "pending");
    assert!(user_status_is("pending".to_string(), UserStatus::Pending));
    assert!(!user_status_is("active".to_string(), UserStatus::Pending));
}

#[test]
fn fresh_identifiers_differ() {
    let mut db = Database::new();
    let a = register(&mut db, "a@example.com");
    let b = register(&mut db, "b@example.com");
    assert_ne!(a, b);
    assert!(ProjectRepository.find_by_id(&db, a).is_err());
}
