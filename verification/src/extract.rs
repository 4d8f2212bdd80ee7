//! Extractors: typed projections of the shared context and the current
//! event.
//!
//! Every argument a handler declares is produced by an extractor. An
//! extractor either yields a value or does not match; a non-match is
//! routine — the handler is skipped, never failed. The reply extractor
//! alone needs outside help: the referenced message must be fetched by a
//! nested call, so the host fetches it first and the extractor takes the
//! result as an argument, holding for every value of it.

use vstd::prelude::*;

use crate::api::GetMessageResponse;
use crate::event::message::{GroupSenderInfo, PrivateSenderInfo, SenderSex, TypedMessageInfo};
use crate::event::{Event, TypedEvent};
use crate::json::{parse_i64, spec_parse_i64};
use crate::segments::{clone_message, clone_opt_string, Segment};
use crate::state::StateMap;
use vstd::utf8::encode_utf8;

verus! {

/// The message event inside an event, if it is one.
pub open spec fn message_event_of(e: Event) -> Option<crate::event::message::Message> {
    match e.event {
        TypedEvent::Message(m) => Some(*m),
        _ => Option::None,
    }
}

/// The common part of a sender description, shared by private and group
/// messages.
#[derive(Debug, PartialEq, Eq)]
pub struct BasicSenderInfo {
    pub user_id: Option<i64>,
    pub nickname: Option<String>,
    pub sex: Option<SenderSex>,
    pub age: Option<i32>,
}

impl BasicSenderInfo {
    pub open spec fn spec_of_private(info: PrivateSenderInfo) -> BasicSenderInfo {
        BasicSenderInfo {
            user_id: info.user_id,
            nickname: info.nickname,
            sex: info.sex,
            age: info.age,
        }
    }

    pub open spec fn spec_of_group(info: GroupSenderInfo) -> BasicSenderInfo {
        BasicSenderInfo {
            user_id: info.user_id,
            nickname: info.nickname,
            sex: info.sex,
            age: info.age,
        }
    }

    pub fn of_private(info: &PrivateSenderInfo) -> (r: BasicSenderInfo)
        ensures
            r == Self::spec_of_private(*info),
    {
        BasicSenderInfo {
            user_id: info.user_id,
            nickname: clone_opt_string(&info.nickname),
            sex: info.sex,
            age: info.age,
        }
    }

    pub fn of_group(info: &GroupSenderInfo) -> (r: BasicSenderInfo)
        ensures
            r == Self::spec_of_group(*info),
    {
        BasicSenderInfo {
            user_id: info.user_id,
            nickname: clone_opt_string(&info.nickname),
            sex: info.sex,
            age: info.age,
        }
    }
}

/// The sender description of an event, where it is a message.
pub open spec fn sender_of(e: Event) -> Option<BasicSenderInfo> {
    match message_event_of(e) {
        Some(m) => Some(
            match m.info {
                TypedMessageInfo::Private(i) => BasicSenderInfo::spec_of_private(i.sender),
                TypedMessageInfo::Group(i) => BasicSenderInfo::spec_of_group(i.sender),
            },
        ),
        Option::None => Option::None,
    }
}

/// The group a message was sent in, where it is a group message.
pub open spec fn group_id_of(e: Event) -> Option<i64> {
    match message_event_of(e) {
        Some(m) => match m.info {
            TypedMessageInfo::Group(i) => Some(i.group_id),
            _ => Option::None,
        },
        Option::None => Option::None,
    }
}

/// The sender's identifier, where the message names one.
pub open spec fn sender_id_of(e: Event) -> Option<i64> {
    match sender_of(e) {
        Some(info) => info.user_id,
        Option::None => Option::None,
    }
}

/// The mention carried by the first at-segment of a message.
pub open spec fn first_at(s: Seq<Segment>) -> Option<String>
    decreases s.len(),
{
    if s.len() == 0 {
        Option::None
    } else {
        match s[0] {
            Segment::At(a) => Some(a.qq),
            _ => first_at(s.drop_first()),
        }
    }
}

/// The mention of an event, where it is a message with an at-segment.
pub open spec fn at_of(e: Event) -> Option<String> {
    match message_event_of(e) {
        Some(m) => first_at(m.message@),
        Option::None => Option::None,
    }
}

/// The target named by the first reply segment of a message.
pub open spec fn first_reply_id(s: Seq<Segment>) -> Option<String>
    decreases s.len(),
{
    if s.len() == 0 {
        Option::None
    } else {
        match s[0] {
            Segment::Reply(r) => Some(r.id),
            _ => first_reply_id(s.drop_first()),
        }
    }
}

/// The replied-to message identifier of an event: the first reply segment's
/// target, read as a decimal number.
pub open spec fn reply_target_of(e: Event) -> Option<i64> {
    match message_event_of(e) {
        Some(m) => match first_reply_id(m.message@) {
            Some(id) => spec_parse_i64(encode_utf8(id@)),
            Option::None => Option::None,
        },
        Option::None => Option::None,
    }
}

/// A message whose first segment quotes a message, as [`Message::reply`]
/// in the event module builds one, names a target the reply extractor reads
/// back: the quoted identifier survives rendering and parsing.
///
/// [`Message::reply`]: crate::event::message::Message::reply
pub proof fn lemma_reply_quotes_resolvable_target(ml: Seq<Segment>, mid: i64)
    requires
        ml.len() >= 1,
        ml[0] matches Segment::Reply(rs) && rs.id@ == crate::message::spec_dec_chars_i64(
            mid as int,
        ),
    ensures
        first_reply_id(ml) matches Some(id) && spec_parse_i64(encode_utf8(id@)) == Some(mid),
{
    crate::message::lemma_reply_id_round_trip(mid);
}

/// State projection: the shared value registered under a tag. Absence is a
/// non-match, not an error.
pub struct State<S> {
    pub state: S,
}

impl<'a, S> State<&'a S> {
    pub fn from_states(states: &'a StateMap<S>, tag: u64) -> (r: Option<State<&'a S>>)
        requires
            states.wf(),
        ensures
            match r {
                Some(st) => states@.contains_key(tag) && *st.state == states@[tag],
                Option::None => !states@.contains_key(tag),
            },
    {
        match states.get(tag) {
            Some(v) => Some(State { state: v }),
            Option::None => Option::None,
        }
    }
}

/// Message projection: the segment list of a message event.
#[derive(Debug, PartialEq, Eq)]
pub struct Message {
    pub message: Vec<Segment>,
}

impl Message {
    pub fn from_event(event: &Event) -> (r: Option<Message>)
        ensures
            match r {
                Some(m) => message_event_of(*event) matches Some(me) && m.message@ == me.message@,
                Option::None => message_event_of(*event) is None,
            },
    {
        match &event.event {
            TypedEvent::Message(m) => Some(Message { message: clone_message(&m.message) }),
            _ => Option::None,
        }
    }
}

/// Sender projection: who sent the message.
#[derive(Debug, PartialEq, Eq)]
pub struct Sender {
    pub info: BasicSenderInfo,
}

impl Sender {
    pub fn from_event(event: &Event) -> (r: Option<Sender>)
        ensures
            match r {
                Some(s) => sender_of(*event) == Some(s.info),
                Option::None => sender_of(*event) is None,
            },
    {
        match &event.event {
            TypedEvent::Message(m) => {
                let info = match &m.info {
                    TypedMessageInfo::Private(i) => BasicSenderInfo::of_private(&i.sender),
                    TypedMessageInfo::Group(i) => BasicSenderInfo::of_group(&i.sender),
                };
                Some(Sender { info })
            },
            _ => Option::None,
        }
    }
}

/// Mention projection: the first at-segment of the message.
#[derive(Debug, PartialEq, Eq)]
pub struct At {
    pub user_id: String,
}

fn scan_first_at(segs: &Vec<Segment>) -> (r: Option<At>)
    ensures
        match r {
            Some(a) => first_at(segs@) == Some(a.user_id),
            Option::None => first_at(segs@) is None,
        },
{
    proof {
        assert(segs@.skip(0) =~= segs@);
    }
    let mut i: usize = 0;
    while i < segs.len()
        invariant
            i <= segs@.len(),
            first_at(segs@) == first_at(segs@.skip(i as int)),
        decreases segs@.len() - i,
    {
        proof {
            assert(segs@.skip(i as int)[0] == segs@[i as int]);
            assert(segs@.skip(i as int).drop_first() =~= segs@.skip(i + 1));
        }
        match &segs[i] {
            Segment::At(a) => {
                proof {
                    assert(first_at(segs@.skip(i as int)) == Some(a.qq));
                }
                return Some(At { user_id: a.qq.clone() });
            },
            _ => {},
        }
        i = i + 1;
    }
    proof {
        assert(segs@.skip(segs@.len() as int).len() == 0);
    }
    Option::None
}

impl At {
    pub fn from_event(event: &Event) -> (r: Option<At>)
        ensures
            match r {
                Some(a) => at_of(*event) == Some(a.user_id),
                Option::None => at_of(*event) is None,
            },
    {
        match &event.event {
            TypedEvent::Message(m) => scan_first_at(&m.message),
            _ => Option::None,
        }
    }
}

/// Group projection: the group the message was sent in.
#[derive(Clone, Copy, Debug, PartialEq, Eq, Structural)]
pub struct GroupId {
    pub group_id: i64,
}

impl GroupId {
    pub fn from_event(event: &Event) -> (r: Option<GroupId>)
        ensures
            match r {
                Some(g) => group_id_of(*event) == Some(g.group_id),
                Option::None => group_id_of(*event) is None,
            },
    {
        match &event.event {
            TypedEvent::Message(m) => match &m.info {
                TypedMessageInfo::Group(i) => Some(GroupId { group_id: i.group_id }),
                _ => Option::None,
            },
            _ => Option::None,
        }
    }
}

/// Sender-identifier projection.
#[derive(Clone, Copy, Debug, PartialEq, Eq, Structural)]
pub struct SenderId {
    pub user_id: i64,
}

impl SenderId {
    pub fn from_event(event: &Event) -> (r: Option<SenderId>)
        ensures
            match r {
                Some(s) => sender_id_of(*event) == Some(s.user_id),
                Option::None => sender_id_of(*event) is None,
            },
    {
        match Sender::from_event(event) {
            Some(s) => match s.info.user_id {
                Some(user_id) => Some(SenderId { user_id }),
                Option::None => Option::None,
            },
            Option::None => Option::None,
        }
    }
}

/// Group matcher: matches exactly the group with the wanted identifier.
/// The wanted identifier is a value given at registration time.
#[derive(Clone, Copy, Debug, PartialEq, Eq, Structural)]
pub struct MatchGroupId {
    pub group_id: i64,
}

impl MatchGroupId {
    pub fn from_event(event: &Event, wanted: i64) -> (r: Option<MatchGroupId>)
        ensures
            match r {
                Some(m) => group_id_of(*event) == Some(wanted) && m.group_id == wanted,
                Option::None => group_id_of(*event) != Some(wanted),
            },
    {
        match GroupId::from_event(event) {
            Some(g) => {
                if g.group_id == wanted {
                    Some(MatchGroupId { group_id: wanted })
                } else {
                    Option::None
                }
            },
            Option::None => Option::None,
        }
    }
}

/// Reply projection: the message the current one replies to.
#[derive(Debug, PartialEq, Eq)]
pub struct Reply {
    pub reply: Vec<Segment>,
}

fn scan_first_reply_target(segs: &Vec<Segment>) -> (r: Option<i64>)
    ensures
        r == match first_reply_id(segs@) {
            Some(id) => spec_parse_i64(encode_utf8(id@)),
            Option::None => Option::<i64>::None,
        },
{
    proof {
        assert(segs@.skip(0) =~= segs@);
    }
    let mut i: usize = 0;
    while i < segs.len()
        invariant
            i <= segs@.len(),
            first_reply_id(segs@) == first_reply_id(segs@.skip(i as int)),
        decreases segs@.len() - i,
    {
        proof {
            assert(segs@.skip(i as int)[0] == segs@[i as int]);
            assert(segs@.skip(i as int).drop_first() =~= segs@.skip(i + 1));
        }
        match &segs[i] {
            Segment::Reply(rs) => {
                proof {
                    assert(first_reply_id(segs@.skip(i as int)) == Some(rs.id));
                }
                return parse_i64(rs.id.as_str());
            },
            _ => {},
        }
        i = i + 1;
    }
    proof {
        assert(segs@.skip(segs@.len() as int).len() == 0);
    }
    Option::None
}

impl Reply {
    /// The identifier the host must fetch, where the message replies to one.
    pub fn target(event: &Event) -> (r: Option<i64>)
        ensures
            r == reply_target_of(*event),
    {
        match &event.event {
            TypedEvent::Message(m) => scan_first_reply_target(&m.message),
            _ => Option::None,
        }
    }

    /// The extracted value, from the fetched reply-target lookup.
    pub fn from_fetched(fetched: &GetMessageResponse) -> (r: Reply)
        ensures
            r.reply@ == fetched.message@,
    {
        Reply { reply: clone_message(&fetched.message) }
    }
}

} // verus!
