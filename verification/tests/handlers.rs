use chatyk::dto::{
    PaginatedParams, ReqAddUserToChannel, ReqPatchUser, ReqRemoveUserFromChannel,
};
use chatyk::handler::auth::{cookie_max_age_secs, cookie_outcome, token_cookie, user_token};
use chatyk::handler::channel::{check_join, check_quit, service_reply, HandlerStep};
use chatyk::handler::message::check_send_message;
use chatyk::handler::middleware::{bearer_token, UserToken};
use chatyk::handler::resource::{stored_part_file_name, uploaded_files};
use chatyk::handler::user::check_patch_user;
use chatyk::handler::AppError;
use chatyk::service::resource::plan_resource;
use chatyk::service::ServiceError;
use chatyk::srv::notify::dto::ReqSendMessage;

fn token(user: &str) -> UserToken {
    UserToken { user_id: user.to_string(), exp: 0 }
}

#[test]
fn bearer_tokens() {
    assert_eq!(bearer_token(Some("Bearer abc.def")), Ok("abc.def".to_string()));
    assert_eq!(bearer_token(Some("Bearer ")), Ok(String::new()));
    assert_eq!(bearer_token(Some("Basic abc")), Err(401));
    assert_eq!(bearer_token(Some("bearer abc")), Err(401));
    assert_eq!(bearer_token(None), Err(401));
}

#[test]
fn the_token_cookie_reads_back_as_the_token() {
    let value = token_cookie(Ok("header.claims.sig".to_string())).ok().unwrap();
    assert_eq!(value, "Bearer header.claims.sig");
    assert_eq!(bearer_token(Some(&value)), Ok("header.claims.sig".to_string()));
    assert!(matches!(token_cookie(Err("bad key".to_string())), Err(AppError::TokenGenerationFailure)));
    assert!(cookie_outcome(Ok(())).is_ok());
    assert!(matches!(cookie_outcome(Err("invalid".to_string())), Err(AppError::CookieAppendError)));
}

#[test]
fn token_lifetimes() {
    let t = user_token("u1".to_string(), 1_700_000_000, 24);
    assert_eq!(t.user_id, "u1");
    assert_eq!(t.exp, 1_700_000_000 + 24 * 3600);
    assert_eq!(cookie_max_age_secs(2), 7200);
}

#[test]
fn paging_defaults() {
    let none = PaginatedParams { limit: None, offset: None };
    assert_eq!((none.offset_or_default(), none.limit_or_default()), (0, 20));
    let some = PaginatedParams { limit: Some(5), offset: Some(40) };
    assert_eq!((some.offset_or_default(), some.limit_or_default()), (40, 5));
}

#[test]
fn users_act_only_for_themselves() {
    let join = ReqAddUserToChannel { user_id: "u1".to_string(), channel_id: "c1".to_string() };
    assert!(matches!(check_join(&token("u1"), join), HandlerStep::Proceed(_)));
    let join = ReqAddUserToChannel { user_id: "u2".to_string(), channel_id: "c1".to_string() };
    assert!(matches!(check_join(&token("u1"), join), HandlerStep::Reply(403)));
    let quit = ReqRemoveUserFromChannel { user_id: "u2".to_string(), channel_id: "c1".to_string() };
    assert!(matches!(check_quit(&token("u1"), quit), HandlerStep::Reply(403)));
    let quit = ReqRemoveUserFromChannel { user_id: "u1".to_string(), channel_id: "c1".to_string() };
    assert!(matches!(check_quit(&token("u1"), quit), HandlerStep::Proceed(_)));
    let send = ReqSendMessage {
        sender_id: "u3".to_string(),
        channel_id: "c1".to_string(),
        content: "hi".to_string(),
    };
    assert!(matches!(check_send_message(&token("u1"), send), HandlerStep::Reply(403)));
    let patch = ReqPatchUser {
        user_id: "u2".to_string(),
        username: None,
        email: None,
        password: None,
    };
    match check_patch_user(&token("u1"), patch) {
        Err(AppError::ServiceError(status, msg)) => {
            assert_eq!(status, 403);
            assert_eq!(msg, "Cannot update other user's information");
        }
        _ => panic!("expected a refusal"),
    }
}

#[test]
fn service_replies() {
    assert!(matches!(service_reply(Ok(()), 204), Ok(204)));
    match service_reply(Err(ServiceError::UserAlreadyInChannel), 204) {
        Err(AppError::ServiceError(status, msg)) => {
            assert_eq!(status, 409);
            assert_eq!(msg, "User is already in the channel");
        }
        _ => panic!("expected an error"),
    }
}

#[test]
fn upload_parts() {
    let stored = stored_part_file_name(Some("resources"), Some("application/octet-stream"), Some("cat.png"));
    assert_eq!(stored, Some("cat.png".to_string()));
    assert_eq!(stored_part_file_name(Some("other"), Some("application/octet-stream"), Some("a")), None);
    assert_eq!(stored_part_file_name(Some("resources"), Some("image/png"), Some("a")), None);
    assert_eq!(stored_part_file_name(Some("resources"), Some("application/octet-stream"), Some("")), None);
    assert_eq!(stored_part_file_name(None, Some("application/octet-stream"), Some("a")), None);
    assert_eq!(stored_part_file_name(Some("resources"), None, Some("a")), None);
    assert_eq!(stored_part_file_name(Some("resources"), Some("application/octet-stream"), None), None);
}

#[test]
fn a_failed_upload_removes_the_stored_files() {
    let first = plan_resource("cat.png", "b");
    let second = plan_resource("notes", "b");
    let expected = vec![format!("{}.png", first.id), format!("{}.", second.id)];
    assert_eq!(uploaded_files(&vec![first, second]), expected);
    assert_eq!(uploaded_files(&vec![]), Vec::<String>::new());
}

#[test]
fn stored_resources_keep_their_extension() {
    let plan = plan_resource("holiday.photo.jpeg", "https://cdn.example.com/res");
    assert_eq!(plan.id.len(), 36);
    assert_eq!(plan.stored_name, format!("{}.jpeg", plan.id));
    assert_eq!(plan.url, format!("https://cdn.example.com/res/{}", plan.id));
    let plan = plan_resource("README", "b");
    assert_eq!(plan.stored_name, format!("{}.", plan.id));
    let plan = plan_resource(".bashrc", "b");
    assert_eq!(plan.stored_name, format!("{}.", plan.id));
}
