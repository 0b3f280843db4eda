use chatyk::dto::{ReqPatchUser, ReqRegisterUser};
use chatyk::model::UserInfo;
use chatyk::service::user::{
    check_login, patch_outcome, patch_user, register_user, registration_outcome, registration_row,
    user_lookup_outcome, user_patch,
};
use chatyk::service::{DbError, ServiceError};

fn registration(password: &str) -> ReqRegisterUser {
    ReqRegisterUser {
        username: "ann".to_string(),
        email: "ann@example.com".to_string(),
        password: password.to_string(),
    }
}

#[test]
fn a_registered_password_logs_in() {
    let user = register_user(registration("s3cret!")).ok().unwrap();
    assert_eq!(user.username, "ann");
    assert_eq!(user.email, "ann@example.com");
    assert_eq!(user.password_hash.len(), 60);
    assert_ne!(user.password_hash, "s3cret!");
    assert!(check_login("s3cret!", Ok(user.password_hash.clone())).is_ok());
}

#[test]
fn a_wrong_password_is_a_mismatch() {
    let user = register_user(registration("right")).ok().unwrap();
    assert!(matches!(
        check_login("wrong", Ok(user.password_hash)),
        Err(ServiceError::PasswordMismatch)
    ));
}

#[test]
fn an_unreadable_hash_is_a_hash_error() {
    assert!(matches!(
        check_login("pw", Ok("not-a-hash".to_string())),
        Err(ServiceError::PasswordHashError(_))
    ));
}

#[test]
fn an_unknown_user_cannot_log_in() {
    assert!(matches!(
        check_login("pw", Err(DbError::NotFound("Record not found".to_string()))),
        Err(ServiceError::UserNotFound)
    ));
    match check_login("pw", Err(DbError::Other("broken pipe".to_string()))) {
        Err(ServiceError::DatabaseError(m)) => assert_eq!(m, "broken pipe"),
        _ => panic!("expected a database error"),
    }
}

fn info() -> UserInfo {
    UserInfo {
        id: "u1".to_string(),
        username: "ann".to_string(),
        email: "ann@example.com".to_string(),
        created_at: "2024-05-01 12:00:00".to_string(),
    }
}

#[test]
fn registration_outcomes() {
    let rsp = registration_outcome(Ok(info())).ok().unwrap();
    assert_eq!(rsp.id, "u1");
    assert_eq!(rsp.created_at, "2024-05-01 12:00:00");
    assert!(matches!(
        registration_outcome(Err(DbError::UniqueViolation("dup".to_string()))),
        Err(ServiceError::EmailOrUsernameConflict)
    ));
    assert!(matches!(
        registration_outcome(Err(DbError::NotFound("nf".to_string()))),
        Err(ServiceError::DatabaseError(_))
    ));
}

#[test]
fn lookups() {
    assert_eq!(user_lookup_outcome(Ok(info())).ok().unwrap().username, "ann");
    assert!(matches!(
        user_lookup_outcome(Err(DbError::NotFound("nf".to_string()))),
        Err(ServiceError::UserNotFound)
    ));
}

#[test]
fn a_patch_hashes_only_a_new_password() {
    let patch = patch_user(ReqPatchUser {
        user_id: "u1".to_string(),
        username: Some("bob".to_string()),
        email: None,
        password: None,
    })
    .ok()
    .unwrap();
    assert_eq!(patch.user_id, "u1");
    assert_eq!(patch.username.as_deref(), Some("bob"));
    assert!(patch.email.is_none());
    assert!(patch.password_hash.is_none());

    let patch = patch_user(ReqPatchUser {
        user_id: "u1".to_string(),
        username: None,
        email: Some("b@example.com".to_string()),
        password: Some("new-pw".to_string()),
    })
    .ok()
    .unwrap();
    let hash = patch.password_hash.unwrap();
    assert_ne!(hash, "new-pw");
    assert!(check_login("new-pw", Ok(hash)).is_ok());
}

#[test]
fn patch_outcomes() {
    assert!(patch_outcome(Ok(0)).is_ok());
    assert!(matches!(
        patch_outcome(Err(DbError::NotFound("nf".to_string()))),
        Err(ServiceError::UserNotFound)
    ));
    assert!(matches!(
        patch_outcome(Err(DbError::UniqueViolation("dup".to_string()))),
        Err(ServiceError::EmailOrUsernameConflict)
    ));
    assert!(matches!(
        patch_outcome(Err(DbError::ForeignKeyViolation("fk".to_string()))),
        Err(ServiceError::DatabaseError(_))
    ));
}

#[test]
fn a_hashed_password_gives_the_registration_row() {
    let row = registration_row(registration("pw"), "id-1".to_string(), Ok("h".repeat(60))).ok().expect("expected a value");
    assert_eq!(row.id, "id-1");
    assert_eq!(row.username, "ann");
    assert_eq!(row.email, "ann@example.com");
    assert_eq!(row.password_hash, "h".repeat(60));
    match registration_row(registration("pw"), "id-1".to_string(), Err("no randomness".to_string())) {
        Err(ServiceError::PasswordHashError(m)) => assert_eq!(m, "no randomness"),
        _ => panic!("expected a hashing error"),
    }
}

#[test]
fn a_hashed_password_gives_the_profile_change() {
    let req = ReqPatchUser {
        user_id: "u1".to_string(),
        username: Some("bob".to_string()),
        email: None,
        password: Some("pw".to_string()),
    };
    let p = user_patch(req, Some(Ok("hash".to_string()))).ok().expect("expected a value");
    assert_eq!(p.user_id, "u1");
    assert_eq!(p.username, Some("bob".to_string()));
    assert_eq!(p.email, None);
    assert_eq!(p.password_hash, Some("hash".to_string()));
    let req = ReqPatchUser { user_id: "u1".to_string(), username: None, email: None, password: None };
    assert_eq!(user_patch(req, None).ok().expect("expected a value").password_hash, None);
    let req = ReqPatchUser { user_id: "u1".to_string(), username: None, email: None, password: Some("pw".to_string()) };
    match user_patch(req, Some(Err("broken".to_string()))) {
        Err(ServiceError::PasswordHashError(m)) => assert_eq!(m, "broken"),
        _ => panic!("expected a hashing error"),
    }
}
