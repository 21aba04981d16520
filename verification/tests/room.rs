use chat_engine::message::ChatMessage;
use chat_engine::room::RoomState;

#[test]
fn nickname_claim_is_exclusive_until_release() {
    let mut room = RoomState::new(Vec::new());
    assert!(room.try_claim_nickname("alice"));
    assert!(room.contains_user("alice"));
    assert!(!room.try_claim_nickname("alice"));
    assert!(room.contains_user("alice"));
    assert!(room.try_claim_nickname("bob"));
    room.release_nickname("alice");
    assert!(!room.contains_user("alice"));
    assert!(room.contains_user("bob"));
    assert!(room.try_claim_nickname("alice"));
}

#[test]
fn releasing_an_absent_name_is_a_no_op() {
    let mut room = RoomState::new(Vec::new());
    room.release_nickname("ghost");
    assert!(!room.contains_user("ghost"));
    assert!(room.try_claim_nickname("ghost"));
    room.release_nickname("ghost");
    room.release_nickname("ghost");
    assert!(!room.contains_user("ghost"));
}

#[test]
fn append_returns_new_length() {
    let mut room = RoomState::new(Vec::new());
    assert_eq!(room.history_len(), 0);
    let p1 = room.append_message(ChatMessage::new("a".to_string(), "one".to_string()));
    assert_eq!(p1, 1);
    let p2 = room.append_message(ChatMessage::new("b".to_string(), "two".to_string()));
    assert_eq!(p2, 2);
    assert_eq!(room.history_len(), 2);
}

#[test]
fn snapshot_tail_returns_last_entries_in_order() {
    let mut room = RoomState::new(Vec::new());
    for i in 1..=120u32 {
        room.append_message(ChatMessage::new("u".to_string(), format!("m{}", i)));
    }
    let tail = room.snapshot_tail(100);
    assert_eq!(tail.len(), 100);
    assert_eq!(tail[0].message, "m21");
    assert_eq!(tail[1].message, "m22");
    assert_eq!(tail[99].message, "m120");
}

#[test]
fn snapshot_tail_of_short_history_is_whole_history() {
    let mut room = RoomState::new(Vec::new());
    room.append_message(ChatMessage::new("a".to_string(), "only".to_string()));
    let tail = room.snapshot_tail(100);
    assert_eq!(tail.len(), 1);
    assert_eq!(tail[0].nick, "a");
    assert_eq!(tail[0].message, "only");
}

#[test]
fn backlog_replay_is_the_hundred_entry_window() {
    let mut room = RoomState::new(Vec::new());
    for i in 1..=120u32 {
        room.append_message(ChatMessage::new("u".to_string(), format!("m{}", i)));
    }
    let frames = room.backlog_frames(100);
    assert_eq!(frames.len(), 100);
    assert_eq!(
        frames[0],
        "{\"content\":{\"message\":\"m21\",\"nick\":\"u\"},\"path\":\"/message\"}"
    );
    assert_eq!(
        frames[99],
        "{\"content\":{\"message\":\"m120\",\"nick\":\"u\"},\"path\":\"/message\"}"
    );
}

#[test]
fn backlog_replay_of_empty_history_is_empty() {
    let room = RoomState::new(Vec::new());
    assert_eq!(room.backlog_frames(100).len(), 0);
}

#[test]
fn room_starts_from_loaded_history() {
    let initial = vec![
        ChatMessage::new("a".to_string(), "hi".to_string()),
        ChatMessage::new("b".to_string(), "yo".to_string()),
    ];
    let room = RoomState::new(initial);
    assert_eq!(room.history_len(), 2);
    let tail = room.snapshot_tail(10);
    assert_eq!(tail[0].nick, "a");
    assert_eq!(tail[1].nick, "b");
    assert!(!room.contains_user("a"));
}
