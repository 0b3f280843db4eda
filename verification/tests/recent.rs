use chatyk::dto::RspMessage;
use chatyk::service::recent::{
    RecentAction, RecentEvent, RecentMessages, RecentPhase, CACHE_TTL_SECS, LOCK_TTL_SECS,
    MAX_CACHE_RETRIES, RETRY_DELAY_MILLIS,
};
use chatyk::service::ServiceError;

fn msg(id: &str) -> RspMessage {
    RspMessage {
        id: id.to_string(),
        channel_id: "c1".to_string(),
        sender_id: "u1".to_string(),
        content: format!("text {id}"),
        created_at: "2024-01-01T00:00:00+00:00".to_string(),
    }
}

fn finished(action: RecentAction) -> Vec<String> {
    match action {
        RecentAction::Finish(Ok(v)) => v.into_iter().map(|m| m.id).collect(),
        _ => panic!("expected the read to finish"),
    }
}

#[test]
fn a_full_cache_answers_at_once() {
    let (state, action) = RecentMessages::start("c1".to_string(), 2);
    match action {
        RecentAction::ReadCache { key, start, stop } => {
            assert_eq!(key, "channel:c1:recent_messages");
            assert_eq!((start, stop), (0, 1));
        }
        _ => panic!("expected a cache read"),
    }
    let (state, action) = state.step(RecentEvent::CacheRead(vec![Some(msg("m2")), Some(msg("m1"))]));
    assert!(state.phase == RecentPhase::Done);
    assert_eq!(finished(action), vec!["m2", "m1"]);
}

#[test]
fn a_partial_cache_is_completed_from_the_database() {
    let (state, _) = RecentMessages::start("c1".to_string(), 5);
    let (state, action) = state.step(RecentEvent::CacheRead(vec![Some(msg("m4")), Some(msg("m3"))]));
    match action {
        RecentAction::LoadFromDb { channel_id, offset, limit } => {
            assert_eq!(channel_id, "c1");
            assert_eq!((offset, limit), (0, 13));
        }
        _ => panic!("expected a database read"),
    }
    let (state, action) = state.step(RecentEvent::DbLoaded(vec![msg("m5"), msg("m4"), msg("m3"), msg("m2")]));
    assert!(state.phase == RecentPhase::Done);
    assert_eq!(finished(action), vec!["m5", "m4", "m3", "m2"]);
}

#[test]
fn an_empty_cache_is_rebuilt_under_the_lock() {
    let (state, _) = RecentMessages::start("c1".to_string(), 3);
    let (state, action) = state.step(RecentEvent::CacheRead(Vec::new()));
    let token = match action {
        RecentAction::AcquireLock { key, token, ttl_secs } => {
            assert_eq!(key, "lock:channel:c1:recent_messages");
            assert_eq!(ttl_secs, LOCK_TTL_SECS);
            assert_eq!(token.len(), 36);
            token
        }
        _ => panic!("expected a lock request"),
    };
    let (state, action) = state.step(RecentEvent::LockReply(true));
    assert!(matches!(action, RecentAction::LoadFromDb { offset: 0, limit: 3, .. }));
    let (state, action) = state.step(RecentEvent::DbLoaded(vec![msg("m2"), msg("m1")]));
    assert!(matches!(action, RecentAction::ClearCache { .. }));
    let (state, action) = state.step(RecentEvent::Completed);
    match action {
        RecentAction::PushCache { key, messages } => {
            assert_eq!(key, "channel:c1:recent_messages");
            assert_eq!(messages.len(), 2);
        }
        _ => panic!("expected a cache write"),
    }
    let (state, action) = state.step(RecentEvent::Completed);
    assert!(matches!(action, RecentAction::ExpireCache { secs, .. } if secs == CACHE_TTL_SECS));
    let (state, action) = state.step(RecentEvent::Completed);
    match action {
        RecentAction::ReleaseLock { key, token: released } => {
            assert_eq!(key, "lock:channel:c1:recent_messages");
            assert_eq!(released, token);
        }
        _ => panic!("expected the lock to be released"),
    }
    let (state, action) = state.step(RecentEvent::Completed);
    assert!(state.phase == RecentPhase::Done);
    assert_eq!(finished(action), vec!["m2", "m1"]);
}

#[test]
fn an_empty_database_page_still_releases_the_lock() {
    let (state, _) = RecentMessages::start("c1".to_string(), 3);
    let (state, _) = state.step(RecentEvent::CacheRead(Vec::new()));
    let (state, _) = state.step(RecentEvent::LockReply(true));
    let (state, action) = state.step(RecentEvent::DbLoaded(Vec::new()));
    assert!(matches!(action, RecentAction::ReleaseLock { .. }));
    let (_, action) = state.step(RecentEvent::Completed);
    assert!(finished(action).is_empty());
}

#[test]
fn a_waiting_reader_gives_up_after_the_retries() {
    let (state, _) = RecentMessages::start("c1".to_string(), 3);
    let (state, _) = state.step(RecentEvent::CacheRead(Vec::new()));
    let (mut state, mut action) = state.step(RecentEvent::LockReply(false));
    let mut sleeps = 0;
    loop {
        match action {
            RecentAction::Sleep { millis } => {
                assert_eq!(millis, RETRY_DELAY_MILLIS);
                sleeps += 1;
                let (s, a) = state.step(RecentEvent::Completed);
                assert!(matches!(a, RecentAction::ReadCache { .. }));
                let (s, a) = s.step(RecentEvent::CacheRead(Vec::new()));
                state = s;
                action = a;
            }
            RecentAction::LoadFromDb { offset, limit, .. } => {
                assert_eq!((offset, limit), (0, 3));
                break;
            }
            _ => panic!("unexpected action"),
        }
    }
    assert_eq!(sleeps, MAX_CACHE_RETRIES);
    let (state, action) = state.step(RecentEvent::DbLoaded(vec![msg("m1")]));
    assert!(state.phase == RecentPhase::Done);
    assert_eq!(finished(action), vec!["m1"]);
}

#[test]
fn a_waiting_reader_takes_the_rebuilt_list() {
    let (state, _) = RecentMessages::start("c1".to_string(), 3);
    let (state, _) = state.step(RecentEvent::CacheRead(Vec::new()));
    let (state, _) = state.step(RecentEvent::LockReply(false));
    let (state, _) = state.step(RecentEvent::Completed);
    let (_, action) = state.step(RecentEvent::CacheRead(vec![None, Some(msg("m1"))]));
    match action {
        RecentAction::Finish(Ok(v)) => {
            assert_eq!(v[0].content, "Corrupted message");
            assert_eq!(v[1].id, "m1");
        }
        _ => panic!("expected the read to finish"),
    }
}

#[test]
fn a_failure_ends_the_read() {
    let (state, _) = RecentMessages::start("c1".to_string(), 3);
    let (state, action) = state.step(RecentEvent::Failed(ServiceError::CacheError("down".to_string())));
    assert!(state.phase == RecentPhase::Done);
    assert!(matches!(action, RecentAction::Finish(Err(ServiceError::CacheError(_)))));
}

#[test]
fn a_huge_page_size_is_served() {
    let (state, action) = RecentMessages::start("c1".to_string(), i64::MAX);
    assert!(matches!(action, RecentAction::ReadCache { start: 0, stop: s, .. } if s == i64::MAX - 1));
    let (_, action) = state.step(RecentEvent::CacheRead(vec![Some(msg("m2")), Some(msg("m1"))]));
    match action {
        RecentAction::LoadFromDb { offset, limit, .. } => assert_eq!((offset, limit), (0, i64::MAX)),
        _ => panic!("expected a database read"),
    }
}

#[test]
fn the_newest_stored_message_is_read_back() {
    let (state, _) = RecentMessages::start("c1".to_string(), 1);
    let (_, action) = state.step(RecentEvent::CacheRead(vec![Some(msg("m9"))]));
    assert_eq!(finished(action), vec!["m9"]);
}
