use chatyk::dto::{ReqChannelMember, ReqCreateChannel};
use chatyk::model::{ChannelInfo, UserInfo};
use chatyk::service::channel::{
    channel_to_rsp, check_member_rows, create_channel, join_outcome, joined_event, leave_outcome,
    left_event, member_to_rsp, members_key,
};
use chatyk::service::message::{recent_messages_key, recent_messages_lock_key};
use chatyk::service::{DbError, PushEvent, ServiceError};

fn member(id: &str) -> ReqChannelMember {
    ReqChannelMember { member_id: id.to_string(), member_name: format!("name-{id}") }
}

fn request(members: Vec<ReqChannelMember>, name: Option<&str>, kind: &str) -> ReqCreateChannel {
    ReqCreateChannel {
        members,
        chan_name: name.map(|n| n.to_string()),
        channel_type: kind.to_string(),
    }
}

fn is_uuid(s: &str) -> bool {
    s.len() == 36
        && s.chars().enumerate().all(|(i, c)| {
            if i == 8 || i == 13 || i == 18 || i == 23 {
                c == '-'
            } else {
                c.is_ascii_hexdigit() && !c.is_ascii_uppercase()
            }
        })
}

#[test]
fn a_channel_needs_two_members() {
    let req = request(vec![member("u1")], Some("solo"), "public");
    assert!(matches!(create_channel(&req), Err(ServiceError::InvalidChannelMemberNumber)));
    let req = request(vec![], None, "bogus");
    assert!(matches!(create_channel(&req), Err(ServiceError::InvalidChannelMemberNumber)));
}

#[test]
fn a_channel_type_must_be_known() {
    let req = request(vec![member("u1"), member("u2")], None, "secret");
    assert!(matches!(create_channel(&req), Err(ServiceError::InvalidChannelType)));
    let req = request(vec![member("u1"), member("u2")], None, "Public");
    assert!(matches!(create_channel(&req), Err(ServiceError::InvalidChannelType)));
}

#[test]
fn a_named_channel_keeps_its_name_and_members() {
    let req = request(vec![member("u1"), member("u2"), member("u3")], Some("team"), "private");
    let creation = create_channel(&req).ok().unwrap();
    assert!(is_uuid(&creation.channel.id));
    assert_eq!(creation.channel.chan_name, "team");
    assert_eq!(creation.channel.channel_type, "private");
    let ids: Vec<&str> = creation.members.iter().map(|m| m.user_id.as_str()).collect();
    assert_eq!(ids, vec!["u1", "u2", "u3"]);
    assert!(creation.members.iter().all(|m| m.channel_id == creation.channel.id));
}

#[test]
fn an_unnamed_channel_is_named_after_its_id() {
    let req = request(vec![member("a"), member("b")], None, "public");
    let creation = create_channel(&req).ok().unwrap();
    let expected = format!("Unnamed group channel # {}", &creation.channel.id[..8]);
    assert_eq!(creation.channel.chan_name, expected);
}

#[test]
fn two_channels_get_different_ids() {
    let req = request(vec![member("a"), member("b")], None, "public");
    let first = create_channel(&req).ok().unwrap();
    let second = create_channel(&req).ok().unwrap();
    assert_ne!(first.channel.id, second.channel.id);
}

#[test]
fn member_rows_must_all_be_inserted() {
    assert_eq!(check_member_rows(3, 3, "c1".to_string()).ok(), Some("c1".to_string()));
    assert!(matches!(
        check_member_rows(2, 3, "c1".to_string()),
        Err(ServiceError::ChannelCreationFailure)
    ));
}

#[test]
fn joining_outcomes() {
    assert!(join_outcome(Ok(1)).is_ok());
    assert!(matches!(
        join_outcome(Err(DbError::ForeignKeyViolation("fk".to_string()))),
        Err(ServiceError::NonexistingChannel)
    ));
    assert!(matches!(
        join_outcome(Err(DbError::UniqueViolation("dup".to_string()))),
        Err(ServiceError::UserAlreadyInChannel)
    ));
    match join_outcome(Err(DbError::Other("timeout".to_string()))) {
        Err(ServiceError::DatabaseError(m)) => assert_eq!(m, "timeout"),
        _ => panic!("expected a database error"),
    }
}

#[test]
fn leaving_twice_reports_the_second_time() {
    assert!(leave_outcome(1).is_ok());
    assert!(matches!(leave_outcome(0), Err(ServiceError::UserNotInChannel)));
}

#[test]
fn cache_keys() {
    assert_eq!(members_key("c42"), "channel:c42:members");
    assert_eq!(recent_messages_key("c42"), "channel:c42:recent_messages");
    assert_eq!(recent_messages_lock_key("c42"), "lock:channel:c42:recent_messages");
    assert_ne!(members_key("a"), members_key("b"));
    assert_ne!(members_key("x:recent_messages"), recent_messages_key("x"));
}

#[test]
fn membership_events() {
    match joined_event("c9") {
        PushEvent::UserJoinedChannel { channel_id } => assert_eq!(channel_id, "c9"),
        _ => panic!("expected a join event"),
    }
    match left_event("c9") {
        PushEvent::UserLeftChannel { channel_id } => assert_eq!(channel_id, "c9"),
        _ => panic!("expected a leave event"),
    }
}

#[test]
fn listings_as_shown_to_clients() {
    let rsp = channel_to_rsp(ChannelInfo {
        id: "c1".to_string(),
        chan_name: None,
        channel_type: "public".to_string(),
        created_at: "2024-01-01 10:00:00".to_string(),
        updated_at: "2024-01-02 10:00:00".to_string(),
    });
    assert_eq!(rsp.chan_name, "");
    assert_eq!(rsp.updated_at, "2024-01-02 10:00:00");
    let m = member_to_rsp(
        UserInfo {
            id: "u1".to_string(),
            username: "ann".to_string(),
            email: "ann@example.com".to_string(),
            created_at: "2024-01-01 09:00:00".to_string(),
        },
        "2024-01-03T00:00:00+00:00".to_string(),
        "c1",
    );
    assert_eq!(m.user_id, "u1");
    assert_eq!(m.user_email, "ann@example.com");
    assert_eq!(m.channel_id, "c1");
    assert_eq!(m.joined_at, "2024-01-03T00:00:00+00:00");
}
