use chatyk::config::ConfigLoadError;
use chatyk::srv::auth::dto::{ReqRegisterUser, RspToken};
use chatyk::srv::auth::handler::{check_login, register_user, registration_outcome, registration_row, AppError};
use chatyk::service::DbError;
use chatyk::srv::notify::dto::{ClientMessage, RspChannelMember};
use chatyk::srv::notify::service::{
    cached_members, handle_client_message, handle_recv_message, join_outcome, leave_outcome,
    members_cache_hit, queue_for_other_instances, ClientAction, ServiceError, WsFrame,
};
use chatyk::srv::notify::{initialize_config, AppConfig};

#[test]
fn frames() {
    assert_eq!(handle_recv_message(WsFrame::Text("{}".to_string())).ok(), Some(Some("{}".to_string())));
    assert!(matches!(handle_recv_message(WsFrame::Ping), Ok(None)));
    assert!(matches!(handle_recv_message(WsFrame::Pong), Ok(None)));
    assert!(matches!(handle_recv_message(WsFrame::Binary), Ok(None)));
    assert!(matches!(handle_recv_message(WsFrame::Close), Err(ServiceError::CloseWebsocket)));
}

#[test]
fn client_requests() {
    let listing = ClientMessage::ReqListChannelMessages { channel_id: "c1".to_string(), offset: 0, limit: 30 };
    match handle_client_message("u1".to_string(), listing) {
        Ok(ClientAction::ListRecent { reply_to, channel_id, limit }) => {
            assert_eq!((reply_to.as_str(), channel_id.as_str(), limit), ("u1", "c1", 30));
        }
        _ => panic!("expected a recent listing"),
    }
    let listing = ClientMessage::ReqListChannelMessages { channel_id: "c1".to_string(), offset: 60, limit: 30 };
    assert!(matches!(
        handle_client_message("u1".to_string(), listing),
        Ok(ClientAction::ListPage { offset: 60, limit: 30, .. })
    ));
    let send = ClientMessage::ReqSendMessage {
        sender_id: "u1".to_string(),
        channel_id: "c1".to_string(),
        content: "hello".to_string(),
    };
    match handle_client_message("u1".to_string(), send) {
        Ok(ClientAction::Send(req)) => assert_eq!(req.content, "hello"),
        _ => panic!("expected a message"),
    }
}

#[test]
fn a_message_in_another_users_name_is_refused() {
    let send = ClientMessage::ReqSendMessage {
        sender_id: "u2".to_string(),
        channel_id: "c1".to_string(),
        content: "hello".to_string(),
    };
    let res = handle_client_message("u1".to_string(), send);
    assert!(matches!(res, Err(ServiceError::SenderMismatch)));
    assert_eq!(ServiceError::SenderMismatch.to_text(), "Sender is not the connected user");
}

#[test]
fn queue_decisions() {
    assert!(queue_for_other_instances(&vec![true, false]));
    assert!(queue_for_other_instances(&vec![false, false]));
    assert!(!queue_for_other_instances(&vec![true, true]));
    assert!(!queue_for_other_instances(&vec![true]));
    assert!(!queue_for_other_instances(&vec![]));
    assert_eq!(chatyk::srv::notify::service::EVENT_QUEUE_KEY, "chatyk:event_queue");
}

#[test]
fn member_cache_hits() {
    assert!(members_cache_hit(&vec![true]));
    assert!(members_cache_hit(&vec![false, true]));
    assert!(!members_cache_hit(&vec![false]));
    assert!(!members_cache_hit(&vec![]));
}

#[test]
fn membership_outcomes() {
    assert!(join_outcome(Ok(1)).is_ok());
    assert!(matches!(
        join_outcome(Err(DbError::ForeignKeyViolation("fk".to_string()))),
        Err(ServiceError::NonexistingChannel)
    ));
    assert!(matches!(
        join_outcome(Err(DbError::UniqueViolation("dup".to_string()))),
        Err(ServiceError::UserAlreadyInChannel)
    ));
    match join_outcome(Err(DbError::Other("boom".to_string()))) {
        Err(ServiceError::DatabaseError(m)) => assert_eq!(m, "boom"),
        _ => panic!("expected a database error"),
    }
    assert!(leave_outcome(1).is_ok());
    assert!(matches!(leave_outcome(0), Err(ServiceError::UserNotInChannel)));
}

fn member(id: &str) -> RspChannelMember {
    RspChannelMember {
        user_id: id.to_string(),
        username: format!("n{id}"),
        channel_id: "c1".to_string(),
        joined_at: "t".to_string(),
    }
}

#[test]
fn cached_member_groups() {
    let groups = vec![Some(vec![member("a"), member("b")]), None, Some(vec![member("c")])];
    let ids: Vec<String> = cached_members(&groups).into_iter().map(|m| m.user_id).collect();
    assert_eq!(ids, vec!["a", "b", "c"]);
    assert!(cached_members(&vec![None]).is_empty());
}

#[test]
fn notify_error_texts() {
    assert_eq!(ServiceError::CloseWebsocket.to_text(), "Close websocket normally");
    assert_eq!(ServiceError::RedisError("down".to_string()).to_text(), "Redis error: down");
}

#[test]
fn notify_config_is_passed_on() {
    let config = AppConfig {
        port: 9000,
        jwt_deckey_env: "JWT_DEC".to_string(),
        database_url_env: "DATABASE_URL".to_string(),
        cache_url_env: "CACHE_URL".to_string(),
        mq_url_env: "MQ_URL".to_string(),
    };
    assert_eq!(initialize_config(Ok(config)).ok().unwrap().port, 9000);
    assert!(initialize_config(Err(ConfigLoadError::NoParentDir)).is_err());
}

#[test]
fn auth_service_register_then_login() {
    let user = register_user(ReqRegisterUser { username: "ann".to_string(), password: "pw1".to_string() })
        .ok()
        .unwrap();
    assert_eq!(user.username, "ann");
    let id = check_login("pw1", Ok((user.id.clone(), user.password_hash.clone()))).ok().unwrap();
    assert_eq!(id, user.id);
    assert!(matches!(
        check_login("pw2", Ok((user.id.clone(), user.password_hash))),
        Err(AppError::UsernameOrPasswordIncorrect)
    ));
    assert!(matches!(
        check_login("pw1", Err(DbError::NotFound("Record not found".to_string()))),
        Err(AppError::DatabaseError(_))
    ));
    assert!(matches!(
        registration_outcome(Err(DbError::UniqueViolation("dup".to_string()))),
        Err(AppError::UsernameConflict)
    ));
    let token = RspToken::bearer("t0k".to_string());
    assert_eq!((token.token_type.as_str(), token.token.as_str()), ("Bearer", "t0k"));
}

#[test]
fn auth_error_bodies() {
    let body = AppError::UsernameConflict.into_error_body();
    assert_eq!((body.code, body.error.as_str()), (409, "Username exsiting"));
    let body = AppError::UsernameOrPasswordIncorrect.into_error_body();
    assert_eq!((body.code, body.error.as_str()), (401, "Username or password incorrect"));
    let body = AppError::JwtCodecError("bad".to_string()).into_error_body();
    assert_eq!((body.code, body.error.as_str()), (500, "Unexpected server error"));
}

use chatyk::srv::auth::handler::{
    Registration, RegistrationAction, RegistrationEvent, RegistrationPhase,
};

#[test]
fn registration_issues_the_token_before_inserting() {
    let (reg, action) = Registration::start(ReqRegisterUser {
        username: "bob".to_string(),
        password: "hunter2".to_string(),
    })
    .ok()
    .unwrap();
    let subject_id = match action {
        RegistrationAction::IssueToken(subject) => subject.user_id,
        _ => panic!("expected a token request first"),
    };
    assert_eq!(subject_id, reg.user.id);
    let (reg, action) = reg.step(RegistrationEvent::TokenIssued(Ok("tok".to_string())));
    assert!(reg.phase == RegistrationPhase::Inserting);
    match action {
        RegistrationAction::InsertUser(row) => {
            assert_eq!(row.id, subject_id);
            assert_eq!(row.username, "bob");
        }
        _ => panic!("expected the insertion"),
    }
    let (reg, action) = reg.step(RegistrationEvent::Inserted(Ok(1)));
    assert!(reg.phase == RegistrationPhase::Done);
    match action {
        RegistrationAction::Finish(Ok(token)) => {
            assert_eq!(token.token_type, "Bearer");
            assert_eq!(token.token, "tok");
        }
        _ => panic!("expected the token"),
    }
}

#[test]
fn registration_failures() {
    let (reg, _) = Registration::start(ReqRegisterUser {
        username: "bob".to_string(),
        password: "pw".to_string(),
    })
    .ok()
    .unwrap();
    let (_, action) = reg.step(RegistrationEvent::TokenIssued(Err("InvalidKeyFormat".to_string())));
    match action {
        RegistrationAction::Finish(Err(AppError::JwtCodecError(m))) => assert_eq!(m, "InvalidKeyFormat"),
        _ => panic!("expected a token failure"),
    }
    let (reg, _) = Registration::start(ReqRegisterUser {
        username: "bob".to_string(),
        password: "pw".to_string(),
    })
    .ok()
    .unwrap();
    let (reg, _) = reg.step(RegistrationEvent::TokenIssued(Ok("tok".to_string())));
    let (_, action) = reg.step(RegistrationEvent::Inserted(Err(DbError::UniqueViolation("dup".to_string()))));
    assert!(matches!(action, RegistrationAction::Finish(Err(AppError::UsernameConflict))));
}

#[test]
fn claims_for_a_subject() {
    let claims = chatyk::srv::shared::jwt_claims("{\"user_id\":\"u1\"}".to_string(), 2073600, 1_700_000_000);
    assert_eq!(claims.sub, "{\"user_id\":\"u1\"}");
    assert_eq!(claims.exp, 1_700_000_000 + 2073600);
    assert_eq!(claims.iat, 1_700_000_000);
}

#[test]
fn a_token_expires_a_lifetime_after_it_is_issued() {
    let claims = chatyk::srv::shared::jwt_claims("{}".to_string(), 60, 1_000);
    assert_eq!(claims.exp - claims.iat, 60);
    let claims = chatyk::srv::shared::jwt_claims("{}".to_string(), usize::MAX, 1_000);
    assert_eq!(claims.exp, usize::MAX);
}

#[test]
fn the_auth_registration_row_keeps_the_hash() {
    let req = ReqRegisterUser { username: "ann".to_string(), password: "pw".to_string() };
    let row = registration_row(req, "id-1".to_string(), Ok("h".repeat(60))).ok().expect("expected a value");
    assert_eq!((row.id.as_str(), row.username.as_str()), ("id-1", "ann"));
    assert_eq!(row.password_hash, "h".repeat(60));
    let req = ReqRegisterUser { username: "ann".to_string(), password: "pw".to_string() };
    match registration_row(req, "id-1".to_string(), Err("broken".to_string())) {
        Err(AppError::BcrypeError(m)) => assert_eq!(m, "broken"),
        _ => panic!("expected a hashing error"),
    }
}
