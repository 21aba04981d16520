use chat_engine::message::ChatMessage;
use chat_engine::persist::decode_history;
use chat_engine::persist::encode_history;
use chat_engine::persist::load_history;
use chat_engine::persist::persist_round_trip;
use chat_engine::room::RoomState;
use chat_engine::timers::reschedule_after;
use chat_engine::timers::timer_fired;
use chat_engine::timers::TimerAction;
use chat_engine::timers::TimerKind;

#[test]
fn history_round_trip() {
    let log = vec![ChatMessage::new("a".to_string(), "hi".to_string())];
    let text = encode_history(&log);
    let back = load_history(text.as_str());
    assert_eq!(back.len(), 1);
    assert_eq!(back[0].nick, "a");
    assert_eq!(back[0].message, "hi");
}

#[test]
fn history_snapshot_exact_text() {
    let log = vec![ChatMessage::new("a".to_string(), "hi".to_string())];
    let text = encode_history(&log);
    assert_eq!(text, "[\n  {\n    \"message\": \"hi\",\n    \"nick\": \"a\"\n  }\n]");
}

#[test]
fn round_trip_keeps_order_and_contents() {
    let log = vec![
        ChatMessage::new("a".to_string(), "first".to_string()),
        ChatMessage::new("system".to_string(), "a has joined the chat.".to_string()),
        ChatMessage::new("b".to_string(), "quote \" and \\ backslash".to_string()),
    ];
    let back = persist_round_trip(&log);
    assert_eq!(back.len(), 3);
    for (orig, copy) in log.iter().zip(back.iter()) {
        assert_eq!(orig.nick, copy.nick);
        assert_eq!(orig.message, copy.message);
    }
}

#[test]
fn empty_history_round_trips() {
    let log: Vec<ChatMessage> = Vec::new();
    let back = persist_round_trip(&log);
    assert!(back.is_empty());
}

#[test]
fn corrupt_or_empty_store_yields_empty_history() {
    assert!(load_history("").is_empty());
    assert!(load_history("not json").is_empty());
    assert!(load_history("{\"nick\":\"a\"}").is_empty());
    assert!(load_history("[{\"nick\":\"a\"}]").is_empty());
    assert!(load_history("[{\"nick\":\"a\",\"message\":3}]").is_empty());
}

#[test]
fn decode_rejects_non_array_text() {
    assert!(decode_history("7").is_none());
    assert!(decode_history("{}").is_none());
    let ok = decode_history("[]").expect("an empty array is an empty history");
    assert!(ok.is_empty());
}

#[test]
fn save_timer_snapshots_the_whole_history() {
    let mut room = RoomState::new(Vec::new());
    room.append_message(ChatMessage::new("a".to_string(), "hi".to_string()));
    match timer_fired(&room, TimerKind::Save) {
        TimerAction::WriteSnapshot(text) => {
            let back = load_history(text.as_str());
            assert_eq!(back.len(), 1);
            assert_eq!(back[0].nick, "a");
            assert_eq!(back[0].message, "hi");
        }
        TimerAction::SendPing => panic!("the save timer writes a snapshot"),
    }
}

#[test]
fn ping_timer_sends_a_probe() {
    let room = RoomState::new(Vec::new());
    assert!(matches!(timer_fired(&room, TimerKind::Ping), TimerAction::SendPing));
}

#[test]
fn reschedule_policy() {
    assert!(reschedule_after(TimerKind::Save, true));
    assert!(reschedule_after(TimerKind::Save, false));
    assert!(reschedule_after(TimerKind::Ping, true));
    assert!(!reschedule_after(TimerKind::Ping, false));
}
