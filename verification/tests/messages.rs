use chatyk::dto::RspMessage;
use chatyk::model::{MessageInfo, NewMessage};
use chatyk::service::message::{
    cached_page, cached_page_with_markers, dedup_messages, gap_window, merge_recent_messages,
    message_info_to_rsp, message_spawned_event, new_message, new_message_to_rsp,
};
use chatyk::service::PushEvent;
use chatyk::srv::notify::dto::ReqSendMessage;

fn msg(id: &str, content: &str) -> RspMessage {
    RspMessage {
        id: id.to_string(),
        channel_id: "c1".to_string(),
        sender_id: "u1".to_string(),
        content: content.to_string(),
        created_at: "2024-01-01T00:00:00+00:00".to_string(),
    }
}

fn ids(v: &[RspMessage]) -> Vec<String> {
    v.iter().map(|m| m.id.clone()).collect()
}

#[test]
fn dedup_keeps_first_occurrences_in_order() {
    let v = vec![msg("a", "1"), msg("b", "2"), msg("a", "3"), msg("c", "4"), msg("b", "5")];
    let d = dedup_messages(&v);
    assert_eq!(ids(&d), vec!["a", "b", "c"]);
    assert_eq!(d[0].content, "1");
    assert_eq!(d[1].content, "2");
}

#[test]
fn dedup_of_distinct_ids_is_the_identity() {
    let v = vec![msg("x", "1"), msg("y", "2")];
    assert_eq!(ids(&dedup_messages(&v)), vec!["x", "y"]);
    assert!(dedup_messages(&Vec::new()).is_empty());
}

#[test]
fn merge_puts_the_database_first_and_drops_repeats() {
    let db = vec![msg("m3", "db"), msg("m2", "db")];
    let cached = vec![Some(msg("m2", "cache")), None, Some(msg("m1", "cache"))];
    let merged = merge_recent_messages(&db, &cached);
    assert_eq!(ids(&merged), vec!["m3", "m2", "m1"]);
    assert_eq!(merged[1].content, "db");
}

#[test]
fn a_full_cached_page_skips_broken_entries() {
    let cached = vec![Some(msg("m1", "a")), None, Some(msg("", "no id")), Some(msg("m2", "b"))];
    assert_eq!(ids(&cached_page(&cached)), vec!["m1", "m2"]);
}

#[test]
fn a_reread_page_marks_broken_entries() {
    let cached = vec![None, Some(msg("m2", "b"))];
    let page = cached_page_with_markers(&cached);
    assert_eq!(page.len(), 2);
    assert_eq!(page[0].id, "");
    assert_eq!(page[0].content, "Corrupted message");
    assert_eq!(page[1].id, "m2");
}

#[test]
fn the_gap_window_reads_around_the_cached_part() {
    assert_eq!(gap_window(5, 20), (0, 25));
    assert_eq!(gap_window(15, 20), (5, 15));
    assert_eq!(gap_window(10, 11), (0, 11));
    assert_eq!(gap_window(1, i64::MAX), (0, i64::MAX));
    assert_eq!(gap_window(20, i64::MAX - 5), (10, i64::MAX - 15));
    assert_eq!(gap_window(5, i64::MAX - 3), (0, i64::MAX));
}

#[test]
fn a_new_message_and_its_event() {
    let req = ReqSendMessage {
        sender_id: "u7".to_string(),
        channel_id: "c3".to_string(),
        content: "<p>hi</p>".to_string(),
    };
    let m: NewMessage = new_message(req, "2024-02-02T02:02:02+00:00".to_string());
    assert_eq!(m.id.len(), 36);
    assert_eq!(m.channel_id, "c3");
    let rsp = new_message_to_rsp(&m);
    assert_eq!(rsp.id, m.id);
    assert_eq!(rsp.created_at, "2024-02-02T02:02:02+00:00");
    match message_spawned_event(&m) {
        PushEvent::MessageSpawned { message_id, sender_id, content, .. } => {
            assert_eq!(message_id, m.id);
            assert_eq!(sender_id, "u7");
            assert_eq!(content, "<p>hi</p>");
        }
        _ => panic!("expected a message event"),
    }
    let stored = message_info_to_rsp(MessageInfo {
        id: "m1".to_string(),
        channel_id: "c3".to_string(),
        sender_id: "u7".to_string(),
        content: "x".to_string(),
        created_at: "t".to_string(),
    });
    assert_eq!(stored.id, "m1");
}
