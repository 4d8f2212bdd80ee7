use flow_bot::connect::ReconnectionStrategy;
use flow_bot::event::message::{
    Message as MessageEvent, PrivateMessageInfo, PrivateSenderInfo, PrivateSubType,
    TypedMessageInfo,
};
use flow_bot::event::TypedEvent;
use flow_bot::message::{i64_to_string, IntoMessage, MessageExt};
use flow_bot::segments::{AtSegment, Segment, TextSegment};
use flow_bot::state::StateMap;
use flow_bot::{ok_or_skip, unwrap_or_skip, HandlerControl};

fn text(s: &str) -> Segment {
    Segment::Text(TextSegment { text: s.to_string() })
}

fn message_event(message: Vec<Segment>) -> MessageEvent {
    MessageEvent {
        message_id: 1234,
        user_id: 42,
        message,
        raw_message: String::new(),
        font: 0,
        info: TypedMessageInfo::Private(PrivateMessageInfo {
            sub_type: PrivateSubType::Friend,
            sender: PrivateSenderInfo { user_id: None, nickname: None, sex: None, age: None },
        }),
    }
}

#[test]
fn plain_text_joins_text_segments_in_order() {
    let m = vec![
        text("hello "),
        Segment::At(AtSegment { qq: "1".to_string() }),
        text("world"),
    ];
    assert_eq!(m.extract_plain_text(), "hello world");
    let empty: Vec<Segment> = vec![];
    assert_eq!(empty.extract_plain_text(), "");
}

#[test]
fn strings_become_one_text_segment() {
    assert_eq!("hi".into_message(), vec![text("hi")]);
    assert_eq!("hi".to_string().into_message(), vec![text("hi")]);
}

#[test]
fn reply_prepends_a_reply_segment_naming_the_message() {
    let ev = message_event(vec![text("the first message")]);
    let r = ev.reply("thanks");
    assert_eq!(r.len(), 2);
    match &r[0] {
        Segment::Reply(rs) => assert_eq!(rs.id, "1234"),
        other => panic!("expected a reply segment, got {:?}", other),
    }
    assert_eq!(r[1], text("thanks"));
}

#[test]
fn decimal_strings_cover_the_extremes() {
    assert_eq!(i64_to_string(0), "0");
    assert_eq!(i64_to_string(-42), "-42");
    assert_eq!(i64_to_string(i64::MIN), "-9223372036854775808");
    assert_eq!(i64_to_string(i64::MAX), "9223372036854775807");
}

#[test]
fn event_types_answer_to_their_discriminator() {
    let e = TypedEvent::Unknown("{}".to_string());
    assert_eq!(e.get_type(), "unknown");
    let m = TypedEvent::Message(Box::new(message_event(vec![])));
    assert_eq!(m.get_type(), "message");
}

#[test]
fn default_reconnection_backs_off_from_a_second_to_a_minute() {
    assert_eq!(
        ReconnectionStrategy::default(),
        ReconnectionStrategy::Infinite { initial_delay_ms: 1000, max_delay_ms: 60000 }
    );
}

#[test]
fn state_registry_keeps_one_value_per_tag() {
    let mut states: StateMap<String> = StateMap::new();
    states.insert(1, "first".to_string());
    states.insert(2, "second".to_string());
    states.insert(1, "replaced".to_string());
    assert_eq!(states.get(1), Some(&"replaced".to_string()));
    assert_eq!(states.get(2), Some(&"second".to_string()));
    assert_eq!(states.get(3), None);
}

#[test]
fn failed_sub_expressions_become_skip() {
    assert_eq!(unwrap_or_skip(Some(5)), Ok(5));
    assert_eq!(unwrap_or_skip::<u8>(None), Err(HandlerControl::Skip));
    assert_eq!(ok_or_skip::<u8, &str>(Ok(5)), Ok(5));
    assert_eq!(ok_or_skip::<u8, &str>(Err("boom")), Err(HandlerControl::Skip));
}

#[test]
fn segments_clone_exactly() {
    let s = Segment::Text(TextSegment { text: "copy".to_string() });
    assert_eq!(s.clone(), s);
    let a = Segment::At(AtSegment { qq: "9".to_string() });
    assert_eq!(a.clone(), a);
}

#[test]
fn errors_clone_and_describe_themselves() {
    let e = flow_bot::error::FlowError::WebSocketError("reset".to_string());
    assert_eq!(e.clone(), e);
    assert_eq!(e.describe(), "websocket failure");
    assert_eq!(
        flow_bot::error::FlowError::NoConnection.describe(),
        "no connection"
    );
    assert_eq!(
        flow_bot::error::FlowError::Timeout(30000).describe(),
        "timed out waiting for a reply"
    );
}
