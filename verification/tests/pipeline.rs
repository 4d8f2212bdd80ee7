use flow_bot::dispatch::{
    extract_arg, pipeline_run, registration_ready, resolve_args, service_init_order, ArgSpec,
    Extracted, Registration,
};
use flow_bot::event::message::{
    GroupMessageInfo, GroupSenderInfo, GroupSubType, Message as MessageEvent, PrivateMessageInfo,
    PrivateSenderInfo, PrivateSubType, TypedMessageInfo,
};
use flow_bot::event::{Event, TypedEvent};
use flow_bot::state::StateMap;
use flow_bot::HandlerControl;

fn group_message_event(group_id: i64) -> Event {
    Event {
        time: 1,
        self_id: 10,
        event: TypedEvent::Message(Box::new(MessageEvent {
            message_id: 1,
            user_id: 42,
            message: vec![],
            raw_message: String::new(),
            font: 0,
            info: TypedMessageInfo::Group(GroupMessageInfo {
                sub_type: GroupSubType::Normal,
                group_id,
                sender: GroupSenderInfo {
                    user_id: Some(42),
                    nickname: None,
                    card: None,
                    sex: None,
                    age: None,
                    area: None,
                    level: None,
                    role: None,
                    title: None,
                },
                anonymous: None,
            }),
        })),
    }
}

fn private_message_event() -> Event {
    Event {
        time: 1,
        self_id: 10,
        event: TypedEvent::Message(Box::new(MessageEvent {
            message_id: 2,
            user_id: 43,
            message: vec![],
            raw_message: String::new(),
            font: 0,
            info: TypedMessageInfo::Private(PrivateMessageInfo {
                sub_type: PrivateSubType::Friend,
                sender: PrivateSenderInfo {
                    user_id: Some(43),
                    nickname: None,
                    sex: None,
                    age: None,
                },
            }),
        })),
    }
}

fn no_states() -> StateMap<u8> {
    StateMap::new()
}

#[test]
fn block_stops_every_later_registration() {
    // scenario: the second registration blocks; the two later ones, which
    // would otherwise match, never run
    let regs = vec![
        Registration::Handler(vec![ArgSpec::Message]),
        Registration::Handler(vec![ArgSpec::Message]),
        Registration::Handler(vec![ArgSpec::Message]),
        Registration::Service,
    ];
    let controls = vec![
        HandlerControl::Continue,
        HandlerControl::Block,
        HandlerControl::Continue,
        HandlerControl::Continue,
    ];
    let states = no_states();
    let ran = pipeline_run(&regs, &controls, &group_message_event(1), &states, None);
    assert_eq!(ran, vec![true, true, false, false]);
    // service initialization is a startup affair, untouched by the block
    assert_eq!(service_init_order(&regs), vec![3]);
}

#[test]
fn failed_extractors_skip_the_handler_and_proceed() {
    // the group-only handler does not match a private message; the pipeline
    // proceeds to the next registration with nothing recorded
    let regs = vec![
        Registration::Handler(vec![ArgSpec::Message, ArgSpec::GroupId]),
        Registration::Handler(vec![ArgSpec::Message]),
    ];
    let controls = vec![HandlerControl::Block, HandlerControl::Continue];
    let states = no_states();
    let ran = pipeline_run(&regs, &controls, &private_message_event(), &states, None);
    assert_eq!(ran, vec![false, true]);
}

#[test]
fn group_handler_runs_only_for_the_group_message() {
    // scenario: a handler declaring message and group-id projections
    let args = vec![ArgSpec::Message, ArgSpec::GroupId];
    let reg = Registration::Handler(args);
    let states = no_states();
    assert!(registration_ready(&reg, &group_message_event(5), &states, None));
    assert!(!registration_ready(&reg, &private_message_event(), &states, None));
}

#[test]
fn services_are_always_ready_and_initialized_in_order() {
    let states = no_states();
    assert!(registration_ready(
        &Registration::Service,
        &private_message_event(),
        &states,
        None
    ));
    let regs = vec![
        Registration::Service,
        Registration::Handler(vec![]),
        Registration::Service,
    ];
    assert_eq!(service_init_order(&regs), vec![0, 2]);
}

#[test]
fn optional_wrapping_always_succeeds() {
    let states = no_states();
    // the inner extractor matches: the value is carried
    let hit = extract_arg(
        &ArgSpec::Optional(Box::new(ArgSpec::GroupId)),
        &group_message_event(5),
        &states,
        None,
    );
    match hit {
        Some(Extracted::Optional(inner)) => assert!(inner.is_some()),
        other => panic!("unexpected extraction: {:?}", other),
    }
    // the inner extractor does not match: absence becomes a value
    let miss = extract_arg(
        &ArgSpec::Optional(Box::new(ArgSpec::GroupId)),
        &private_message_event(),
        &states,
        None,
    );
    match miss {
        Some(Extracted::Optional(inner)) => assert!(inner.is_none()),
        other => panic!("unexpected extraction: {:?}", other),
    }
}

#[test]
fn first_match_picks_the_first_success() {
    let states = no_states();
    // both candidates would succeed on a group message: the first wins
    let both = extract_arg(
        &ArgSpec::OneOf(vec![ArgSpec::GroupId, ArgSpec::Sender]),
        &group_message_event(5),
        &states,
        None,
    );
    match both {
        Some(Extracted::OneOf(k, _)) => assert_eq!(k, 0),
        other => panic!("unexpected extraction: {:?}", other),
    }
    // only the second matches a private message
    let second = extract_arg(
        &ArgSpec::OneOf(vec![ArgSpec::GroupId, ArgSpec::Sender]),
        &private_message_event(),
        &states,
        None,
    );
    match second {
        Some(Extracted::OneOf(k, _)) => assert_eq!(k, 1),
        other => panic!("unexpected extraction: {:?}", other),
    }
    // neither matches: the combinator itself fails
    let neither = extract_arg(
        &ArgSpec::OneOf(vec![ArgSpec::GroupId, ArgSpec::At]),
        &private_message_event(),
        &states,
        None,
    );
    assert!(neither.is_none());
}

#[test]
fn resolve_args_yields_every_value_or_none() {
    let states = no_states();
    let vals = resolve_args(
        &vec![ArgSpec::Context, ArgSpec::Event, ArgSpec::GroupId],
        &group_message_event(5),
        &states,
        None,
    )
    .unwrap();
    assert_eq!(vals.len(), 3);
    assert_eq!(vals[0], Extracted::Context);
    assert_eq!(vals[1], Extracted::Event);
    assert!(resolve_args(
        &vec![ArgSpec::Context, ArgSpec::GroupId],
        &private_message_event(),
        &states,
        None
    )
    .is_none());
}

#[test]
fn state_arguments_resolve_against_the_registry() {
    let mut states: StateMap<u8> = StateMap::new();
    states.insert(3, 9);
    let e = private_message_event();
    assert_eq!(extract_arg(&ArgSpec::State(3), &e, &states, None), Some(Extracted::State(3)));
    assert_eq!(extract_arg(&ArgSpec::State(4), &e, &states, None), None);
}
