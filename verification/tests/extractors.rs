use flow_bot::event::message::{
    GroupMessageInfo, GroupSenderInfo, GroupSubType, Message as MessageEvent, PrivateMessageInfo,
    PrivateSenderInfo, PrivateSubType, TypedMessageInfo,
};
use flow_bot::event::{Event, TypedEvent};
use flow_bot::extract::{At, GroupId, MatchGroupId, Message, Reply, Sender, SenderId, State};
use flow_bot::segments::{AtSegment, ReplySegment, Segment, TextSegment};
use flow_bot::state::StateMap;

fn group_sender(user_id: Option<i64>) -> GroupSenderInfo {
    GroupSenderInfo {
        user_id,
        nickname: Some("nick".to_string()),
        card: None,
        sex: None,
        age: None,
        area: None,
        level: None,
        role: None,
        title: None,
    }
}

fn group_message_event(group_id: i64, message: Vec<Segment>) -> Event {
    Event {
        time: 1700000000,
        self_id: 10,
        event: TypedEvent::Message(Box::new(MessageEvent {
            message_id: 77,
            user_id: 42,
            message,
            raw_message: String::new(),
            font: 0,
            info: TypedMessageInfo::Group(GroupMessageInfo {
                sub_type: GroupSubType::Normal,
                group_id,
                sender: group_sender(Some(42)),
                anonymous: None,
            }),
        })),
    }
}

fn private_message_event(message: Vec<Segment>) -> Event {
    Event {
        time: 1700000000,
        self_id: 10,
        event: TypedEvent::Message(Box::new(MessageEvent {
            message_id: 78,
            user_id: 43,
            message,
            raw_message: String::new(),
            font: 0,
            info: TypedMessageInfo::Private(PrivateMessageInfo {
                sub_type: PrivateSubType::Friend,
                sender: PrivateSenderInfo {
                    user_id: None,
                    nickname: Some("nick".to_string()),
                    sex: None,
                    age: None,
                },
            }),
        })),
    }
}

fn notice_event() -> Event {
    Event {
        time: 1,
        self_id: 10,
        event: TypedEvent::Unknown("{}".to_string()),
    }
}

fn text(s: &str) -> Segment {
    Segment::Text(TextSegment { text: s.to_string() })
}

#[test]
fn message_extractor_matches_only_message_events() {
    let e = group_message_event(5, vec![text("hi")]);
    let m = Message::from_event(&e).unwrap();
    assert_eq!(m.message, vec![text("hi")]);
    assert!(Message::from_event(&notice_event()).is_none());
}

#[test]
fn sender_extractor_reads_either_sender_shape() {
    let g = group_message_event(5, vec![]);
    let s = Sender::from_event(&g).unwrap();
    assert_eq!(s.info.user_id, Some(42));
    assert_eq!(s.info.nickname, Some("nick".to_string()));

    let p = private_message_event(vec![]);
    let s = Sender::from_event(&p).unwrap();
    assert_eq!(s.info.user_id, None);

    assert!(Sender::from_event(&notice_event()).is_none());
}

#[test]
fn at_extractor_finds_the_first_mention() {
    let e = group_message_event(
        5,
        vec![
            text("hey"),
            Segment::At(AtSegment { qq: "111".to_string() }),
            Segment::At(AtSegment { qq: "222".to_string() }),
        ],
    );
    assert_eq!(At::from_event(&e).unwrap().user_id, "111");
    let plain = group_message_event(5, vec![text("hey")]);
    assert!(At::from_event(&plain).is_none());
}

#[test]
fn group_id_extractor_matches_group_messages_only() {
    assert_eq!(
        GroupId::from_event(&group_message_event(9, vec![])).unwrap().group_id,
        9
    );
    assert!(GroupId::from_event(&private_message_event(vec![])).is_none());
}

#[test]
fn sender_id_extractor_needs_a_named_sender() {
    assert_eq!(
        SenderId::from_event(&group_message_event(9, vec![])).unwrap().user_id,
        42
    );
    // the private sender above carries no user id
    assert!(SenderId::from_event(&private_message_event(vec![])).is_none());
}

#[test]
fn group_matcher_compares_the_identifier() {
    let e = group_message_event(123, vec![]);
    assert!(MatchGroupId::from_event(&e, 123).is_some());
    assert!(MatchGroupId::from_event(&e, 124).is_none());
    assert!(MatchGroupId::from_event(&private_message_event(vec![]), 123).is_none());
}

#[test]
fn reply_target_reads_the_first_reply_segment() {
    let e = group_message_event(
        5,
        vec![
            Segment::Reply(ReplySegment { id: "31337".to_string() }),
            text("quoted"),
        ],
    );
    assert_eq!(Reply::target(&e), Some(31337));
    assert_eq!(Reply::target(&group_message_event(5, vec![text("x")])), None);
}

#[test]
fn unparsable_reply_target_is_a_non_match() {
    let e = group_message_event(
        5,
        vec![Segment::Reply(ReplySegment { id: "not-a-number".to_string() })],
    );
    assert_eq!(Reply::target(&e), None);
}

#[test]
fn state_projection_matches_only_registered_tags() {
    let mut states: StateMap<String> = StateMap::new();
    states.insert(7, "shared".to_string());
    let hit = State::from_states(&states, 7).unwrap();
    assert_eq!(hit.state, "shared");
    assert!(State::from_states(&states, 8).is_none());
}

#[test]
fn a_built_reply_names_the_quoted_message() {
    // build a reply to a message, deliver it as a new event, and read the
    // quoted target back out
    let quoted = group_message_event(5, vec![text("first")]);
    let reply_message = match &quoted.event {
        flow_bot::event::TypedEvent::Message(m) => m.reply("second"),
        _ => unreachable!(),
    };
    let delivered = group_message_event(5, reply_message);
    assert_eq!(Reply::target(&delivered), Some(77));
}
