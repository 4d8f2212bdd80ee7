//! The dispatch pipeline.
//!
//! Registrations are held in insertion order. For each inbound event the
//! pipeline walks them: a bare handler runs only if every argument its
//! extractor tuple declares resolves — otherwise it is skipped with nothing
//! recorded — while a service is invoked directly. A `Block` control ends
//! the walk; `Skip` and `Continue` let it proceed. Handler bodies are the
//! host's; the pipeline decides who runs, and in what order.

use vstd::prelude::*;

use crate::extract::{
    at_of, group_id_of, message_event_of, reply_target_of, sender_id_of, sender_of, At, GroupId,
    MatchGroupId, Message, Reply, Sender, SenderId,
};
use crate::event::Event;
use crate::segments::{clone_message, Segment};
use crate::state::StateMap;
use crate::HandlerControl;

verus! {

broadcast use vstd::std_specs::vec::group_vec_axioms;

/// One declared argument of a handler: which extractor produces it.
/// Combinators nest: an optional wrapping always resolves, and a first-match
/// list adopts the first of its candidates that does.
#[derive(Debug, PartialEq, Eq)]
pub enum ArgSpec {
    /// The shared context itself; always resolves.
    Context,
    /// The raw event; always resolves.
    Event,
    /// The message projection.
    Message,
    /// The sender projection.
    Sender,
    /// The first mention of the message.
    At,
    /// The group of a group message.
    GroupId,
    /// The sender's identifier.
    SenderId,
    /// Matches only the group with this identifier.
    MatchGroupId(i64),
    /// The shared value registered under this tag.
    State(u64),
    /// The message the current one replies to, fetched by a nested call.
    Reply,
    /// Optional wrapping: always resolves, carrying the inner outcome.
    Optional(Box<ArgSpec>),
    /// First-match: adopts the first candidate that resolves.
    OneOf(Vec<ArgSpec>),
}

/// A value an extractor produced. Passthrough arguments carry no payload:
/// the host already holds the context and the event it dispatched.
#[derive(Debug, PartialEq, Eq)]
pub enum Extracted {
    Context,
    Event,
    Message(Message),
    Sender(Sender),
    At(At),
    GroupId(GroupId),
    SenderId(SenderId),
    MatchGroupId(MatchGroupId),
    /// The tag whose state is registered; the host reads the registry.
    State(u64),
    Reply(Reply),
    /// The inner outcome: absence became a value, not a skip.
    Optional(Box<Option<Extracted>>),
    /// Which candidate matched, and its value.
    OneOf(usize, Box<Extracted>),
}

/// Whether an argument resolves against an event, the registered state
/// tags, and whether the reply-target fetch succeeded.
pub open spec fn spec_resolves(a: ArgSpec, e: Event, tags: Set<u64>, has_reply: bool) -> bool
    decreases a,
{
    match a {
        ArgSpec::Context => true,
        ArgSpec::Event => true,
        ArgSpec::Message => message_event_of(e) is Some,
        ArgSpec::Sender => sender_of(e) is Some,
        ArgSpec::At => at_of(e) is Some,
        ArgSpec::GroupId => group_id_of(e) is Some,
        ArgSpec::SenderId => sender_id_of(e) is Some,
        ArgSpec::MatchGroupId(n) => group_id_of(e) == Some(n),
        ArgSpec::State(t) => tags.contains(t),
        ArgSpec::Reply => reply_target_of(e) is Some && has_reply,
        ArgSpec::Optional(_) => true,
        ArgSpec::OneOf(l) => exists|i: int|
            0 <= i < l@.len() && spec_resolves(#[trigger] l@[i], e, tags, has_reply),
    }
}

/// Whether no candidate before position `k` resolves.
pub open spec fn no_candidate_resolves_before(
    l: Seq<ArgSpec>,
    e: Event,
    tags: Set<u64>,
    has_reply: bool,
    k: int,
) -> bool {
    forall|j: int| 0 <= j < k ==> !spec_resolves(#[trigger] l[j], e, tags, has_reply)
}

/// The fetched reply-target lookup, seen as segments.
pub open spec fn spec_fetched(o: Option<&Vec<Segment>>) -> Option<Seq<Segment>> {
    match o {
        Some(v) => Some(v@),
        Option::None => Option::None,
    }
}

/// Whether `r` is exactly what extracting `a` yields: a value that carries
/// the declared projection when the argument resolves, and nothing when it
/// does not.
pub open spec fn extract_matches(
    a: ArgSpec,
    e: Event,
    tags: Set<u64>,
    fetched: Option<Seq<Segment>>,
    r: Option<Extracted>,
) -> bool
    decreases a,
{
    match a {
        ArgSpec::Context => r == Some(Extracted::Context),
        ArgSpec::Event => r == Some(Extracted::Event),
        ArgSpec::Message => match message_event_of(e) {
            Some(me) => r matches Some(x) && x matches Extracted::Message(m) && m.message@
                == me.message@,
            Option::None => r is None,
        },
        ArgSpec::Sender => match sender_of(e) {
            Some(info) => r == Some(Extracted::Sender(Sender { info })),
            Option::None => r is None,
        },
        ArgSpec::At => match at_of(e) {
            Some(q) => r == Some(Extracted::At(At { user_id: q })),
            Option::None => r is None,
        },
        ArgSpec::GroupId => match group_id_of(e) {
            Some(g) => r == Some(Extracted::GroupId(GroupId { group_id: g })),
            Option::None => r is None,
        },
        ArgSpec::SenderId => match sender_id_of(e) {
            Some(u) => r == Some(Extracted::SenderId(SenderId { user_id: u })),
            Option::None => r is None,
        },
        ArgSpec::MatchGroupId(n) => if group_id_of(e) == Some(n) {
            r == Some(Extracted::MatchGroupId(MatchGroupId { group_id: n }))
        } else {
            r is None
        },
        ArgSpec::State(t) => if tags.contains(t) {
            r == Some(Extracted::State(t))
        } else {
            r is None
        },
        ArgSpec::Reply => match (reply_target_of(e), fetched) {
            (Some(_), Some(f)) => r matches Some(x) && x matches Extracted::Reply(rp) && rp.reply@
                == f,
            _ => r is None,
        },
        ArgSpec::Optional(b) => r matches Some(x) && x matches Extracted::Optional(inner)
            && extract_matches(*b, e, tags, fetched, *inner),
        ArgSpec::OneOf(l) => match r {
            Some(x) => {
                &&& x matches Extracted::OneOf(k, payload)
                &&& 0 <= (k as int) < l@.len()
                &&& spec_resolves(l@[k as int], e, tags, fetched is Some)
                &&& no_candidate_resolves_before(l@, e, tags, fetched is Some, k as int)
                &&& extract_matches(l@[k as int], e, tags, fetched, Some(*payload))
            },
            Option::None => no_candidate_resolves_before(
                l@,
                e,
                tags,
                fetched is Some,
                l@.len() as int,
            ),
        },
    }
}

/// An extraction outcome answers exactly for resolution: a value comes back
/// precisely when the argument resolves.
pub proof fn lemma_matches_decides_resolution(
    a: ArgSpec,
    e: Event,
    tags: Set<u64>,
    fetched: Option<Seq<Segment>>,
    r: Option<Extracted>,
)
    requires
        extract_matches(a, e, tags, fetched, r),
    ensures
        (r is Some) == spec_resolves(a, e, tags, fetched is Some),
    decreases a,
{
    match a {
        ArgSpec::OneOf(l) => {
            match r {
                Some(x) => {},
                Option::None => {},
            }
        },
        _ => {},
    }
}

/// Resolve one declared argument.
#[verifier::loop_isolation(false)]
pub fn extract_arg<S>(
    a: &ArgSpec,
    event: &Event,
    states: &StateMap<S>,
    fetched: Option<&Vec<Segment>>,
) -> (r: Option<Extracted>)
    requires
        states.wf(),
    ensures
        extract_matches(*a, *event, states@.dom(), spec_fetched(fetched), r),
    decreases *a,
{
    match a {
        ArgSpec::Context => Some(Extracted::Context),
        ArgSpec::Event => Some(Extracted::Event),
        ArgSpec::Message => match Message::from_event(event) {
            Some(m) => Some(Extracted::Message(m)),
            Option::None => Option::None,
        },
        ArgSpec::Sender => match Sender::from_event(event) {
            Some(s) => Some(Extracted::Sender(s)),
            Option::None => Option::None,
        },
        ArgSpec::At => match At::from_event(event) {
            Some(at) => Some(Extracted::At(at)),
            Option::None => Option::None,
        },
        ArgSpec::GroupId => match GroupId::from_event(event) {
            Some(g) => Some(Extracted::GroupId(g)),
            Option::None => Option::None,
        },
        ArgSpec::SenderId => match SenderId::from_event(event) {
            Some(s) => Some(Extracted::SenderId(s)),
            Option::None => Option::None,
        },
        ArgSpec::MatchGroupId(n) => match MatchGroupId::from_event(event, *n) {
            Some(m) => Some(Extracted::MatchGroupId(m)),
            Option::None => Option::None,
        },
        ArgSpec::State(t) => match states.get(*t) {
            Some(_) => Some(Extracted::State(*t)),
            Option::None => Option::None,
        },
        ArgSpec::Reply => match Reply::target(event) {
            Some(_) => match fetched {
                Some(f) => Some(Extracted::Reply(Reply { reply: clone_message(f) })),
                Option::None => Option::None,
            },
            Option::None => Option::None,
        },
        ArgSpec::Optional(b) => Some(
            Extracted::Optional(Box::new(extract_arg(b, event, states, fetched))),
        ),
        ArgSpec::OneOf(l) => {
            let mut i: usize = 0;
            while i < l.len()
                invariant
                    states.wf(),
                    *a == ArgSpec::OneOf(*l),
                    i <= l@.len(),
                    forall|j: int|
                        0 <= j < i ==> !spec_resolves(
                            #[trigger] l@[j],
                            *event,
                            states@.dom(),
                            fetched is Some,
                        ),
                decreases l@.len() - i,
            {
                proof {
                    vstd::std_specs::vec::axiom_vec_index_decreases(*l, i as int);
                }
                let got = extract_arg(&l[i], event, states, fetched);
                proof {
                    lemma_matches_decides_resolution(
                        l@[i as int],
                        *event,
                        states@.dom(),
                        spec_fetched(fetched),
                        got,
                    );
                }
                match got {
                    Some(x) => {
                        let r = Some(Extracted::OneOf(i, Box::new(x)));
                        proof {
                            assert(extract_matches(
                                l@[i as int],
                                *event,
                                states@.dom(),
                                spec_fetched(fetched),
                                Some(x),
                            ));
                            assert(spec_resolves(
                                l@[i as int],
                                *event,
                                states@.dom(),
                                fetched is Some,
                            ));
                        }
                        return r;
                    },
                    Option::None => {},
                }
                i = i + 1;
            }
            Option::None
        },
    }
}

/// One pipeline registration, in insertion order: a bare handler with its
/// declared argument tuple, or a service invoked directly.
#[derive(Debug, PartialEq, Eq)]
pub enum Registration {
    /// A handler: runs only if every declared argument resolves.
    Handler(Vec<ArgSpec>),
    /// A service: receives context and event directly, and also gets one
    /// initialization call at startup.
    Service,
}

/// Whether a handler's whole declared tuple resolves.
pub open spec fn all_args_resolve(
    args: Seq<ArgSpec>,
    e: Event,
    tags: Set<u64>,
    has_reply: bool,
) -> bool {
    forall|i: int| 0 <= i < args.len() ==> spec_resolves(#[trigger] args[i], e, tags, has_reply)
}

/// Whether a registration's body would be invoked for this event: a service
/// always, a handler only when its whole tuple resolves.
pub open spec fn spec_ready(reg: Registration, e: Event, tags: Set<u64>, has_reply: bool) -> bool {
    match reg {
        Registration::Handler(args) => all_args_resolve(args@, e, tags, has_reply),
        Registration::Service => true,
    }
}

/// Whether the pipeline has stopped before position `k`: some earlier
/// registration ran and returned `Block`.
pub open spec fn spec_stopped(
    regs: Seq<Registration>,
    controls: Seq<HandlerControl>,
    e: Event,
    tags: Set<u64>,
    has_reply: bool,
    k: int,
) -> bool
    decreases k,
{
    if k <= 0 {
        false
    } else {
        spec_stopped(regs, controls, e, tags, has_reply, k - 1) || (spec_ready(
            regs[k - 1],
            e,
            tags,
            has_reply,
        ) && !spec_stopped(regs, controls, e, tags, has_reply, k - 1) && controls[k - 1]
            is Block)
    }
}

/// Whether the body of registration `k` runs for this event, when each
/// invoked body would return the control in `controls`.
pub open spec fn spec_runs(
    regs: Seq<Registration>,
    controls: Seq<HandlerControl>,
    e: Event,
    tags: Set<u64>,
    has_reply: bool,
    k: int,
) -> bool {
    &&& 0 <= k < regs.len()
    &&& spec_ready(regs[k], e, tags, has_reply)
    &&& !spec_stopped(regs, controls, e, tags, has_reply, k)
}

/// Resolve a handler's whole argument tuple: every value, in declaration
/// order, or nothing at all — in which case the handler is skipped with no
/// error recorded.
pub fn resolve_args<S>(
    args: &Vec<ArgSpec>,
    event: &Event,
    states: &StateMap<S>,
    fetched: Option<&Vec<Segment>>,
) -> (r: Option<Vec<Extracted>>)
    requires
        states.wf(),
    ensures
        (r is Some) == spec_ready(
            Registration::Handler(*args),
            *event,
            states@.dom(),
            fetched is Some,
        ),
        r matches Some(vals) ==> vals@.len() == args@.len() && forall|i: int|
            0 <= i < args@.len() ==> extract_matches(
                #[trigger] args@[i],
                *event,
                states@.dom(),
                spec_fetched(fetched),
                Some(vals@[i]),
            ),
{
    let mut vals: Vec<Extracted> = Vec::new();
    let mut i: usize = 0;
    while i < args.len()
        invariant
            states.wf(),
            i <= args@.len(),
            vals@.len() == i,
            forall|j: int|
                0 <= j < i ==> spec_resolves(
                    #[trigger] args@[j],
                    *event,
                    states@.dom(),
                    fetched is Some,
                ),
            forall|j: int|
                0 <= j < i ==> extract_matches(
                    #[trigger] args@[j],
                    *event,
                    states@.dom(),
                    spec_fetched(fetched),
                    Some(vals@[j]),
                ),
        decreases args@.len() - i,
    {
        let got = extract_arg(&args[i], event, states, fetched);
        proof {
            lemma_matches_decides_resolution(
                args@[i as int],
                *event,
                states@.dom(),
                spec_fetched(fetched),
                got,
            );
        }
        match got {
            Some(x) => {
                vals.push(x);
            },
            Option::None => {
                proof {
                    assert(!spec_resolves(
                        args@[i as int],
                        *event,
                        states@.dom(),
                        fetched is Some,
                    ));
                    assert(!all_args_resolve(args@, *event, states@.dom(), fetched is Some));
                }
                return Option::None;
            },
        }
        i = i + 1;
    }
    Some(vals)
}

/// Whether this registration's body is to be invoked for this event.
pub fn registration_ready<S>(
    reg: &Registration,
    event: &Event,
    states: &StateMap<S>,
    fetched: Option<&Vec<Segment>>,
) -> (r: bool)
    requires
        states.wf(),
    ensures
        r == spec_ready(*reg, *event, states@.dom(), fetched is Some),
{
    match reg {
        Registration::Handler(args) => resolve_args(args, event, states, fetched).is_some(),
        Registration::Service => true,
    }
}

/// Walk the whole pipeline for one event, with `controls` standing for what
/// each body returns when invoked. Yields, per registration, whether its
/// body ran.
#[verifier::loop_isolation(false)]
pub fn pipeline_run<S>(
    regs: &Vec<Registration>,
    controls: &Vec<HandlerControl>,
    event: &Event,
    states: &StateMap<S>,
    fetched: Option<&Vec<Segment>>,
) -> (r: Vec<bool>)
    requires
        states.wf(),
        controls@.len() == regs@.len(),
    ensures
        r@.len() == regs@.len(),
        forall|k: int|
            0 <= k < regs@.len() ==> r@[k] == spec_runs(
                regs@,
                controls@,
                *event,
                states@.dom(),
                fetched is Some,
                k,
            ),
{
    let mut r: Vec<bool> = Vec::new();
    let mut stopped = false;
    let mut i: usize = 0;
    while i < regs.len()
        invariant
            i <= regs@.len(),
            r@.len() == i,
            stopped == spec_stopped(
                regs@,
                controls@,
                *event,
                states@.dom(),
                fetched is Some,
                i as int,
            ),
            forall|k: int|
                0 <= k < i ==> r@[k] == spec_runs(
                    regs@,
                    controls@,
                    *event,
                    states@.dom(),
                    fetched is Some,
                    k,
                ),
        decreases regs@.len() - i,
    {
        let ready = registration_ready(&regs[i], event, states, fetched);
        let runs = ready && !stopped;
        r.push(runs);
        if runs && controls[i] == HandlerControl::Block {
            stopped = true;
        }
        i = i + 1;
    }
    r
}

/// The startup plan: every service's position, in registration order. Each
/// service's initialization entry point is invoked once, before the read
/// loop processes frames, whatever the handlers later do.
pub open spec fn spec_service_indices(regs: Seq<Registration>) -> Seq<int>
    decreases regs.len(),
{
    if regs.len() == 0 {
        seq![]
    } else {
        spec_service_indices(regs.drop_last()) + (if regs.last() is Service {
            seq![regs.len() - 1]
        } else {
            seq![]
        })
    }
}

/// The positions whose services are to be initialized, in order.
pub fn service_init_order(regs: &Vec<Registration>) -> (r: Vec<usize>)
    ensures
        r@.map_values(|u: usize| u as int) == spec_service_indices(regs@),
{
    let mut r: Vec<usize> = Vec::new();
    let mut i: usize = 0;
    while i < regs.len()
        invariant
            i <= regs@.len(),
            r@.map_values(|u: usize| u as int) == spec_service_indices(regs@.take(i as int)),
        decreases regs@.len() - i,
    {
        let ghost prefix = regs@.take(i as int);
        match &regs[i] {
            Registration::Service => {
                r.push(i);
                proof {
                    assert(r@.drop_last().map_values(|u: usize| u as int) == spec_service_indices(
                        prefix,
                    ));
                    assert(r@.map_values(|u: usize| u as int) =~= r@.drop_last().map_values(
                        |u: usize| u as int,
                    ) + seq![i as int]);
                }
            },
            _ => {},
        }
        proof {
            assert(regs@.take(i + 1).drop_last() =~= prefix);
            assert(regs@.take(i + 1).last() == regs@[i as int]);
        }
        i = i + 1;
    }
    proof {
        assert(regs@.take(regs@.len() as int) =~= regs@);
    }
    r
}

/// Once a registration runs and returns `Block`, no later registration runs
/// for that event.
pub proof fn lemma_block_short_circuits(
    regs: Seq<Registration>,
    controls: Seq<HandlerControl>,
    e: Event,
    tags: Set<u64>,
    has_reply: bool,
    k: int,
    j: int,
)
    requires
        0 <= k < j < regs.len(),
        spec_runs(regs, controls, e, tags, has_reply, k),
        controls[k] is Block,
    ensures
        spec_stopped(regs, controls, e, tags, has_reply, j),
        !spec_runs(regs, controls, e, tags, has_reply, j),
    decreases j,
{
    if j == k + 1 {
        assert(spec_stopped(regs, controls, e, tags, has_reply, k + 1));
    } else {
        lemma_block_short_circuits(regs, controls, e, tags, has_reply, k, j - 1);
    }
}

/// A handler whose extractors do not resolve never runs, and its position
/// behaves as `Continue`: the pipeline's stopping state passes it by
/// unchanged.
pub proof fn lemma_unresolved_is_skipped(
    regs: Seq<Registration>,
    controls: Seq<HandlerControl>,
    e: Event,
    tags: Set<u64>,
    has_reply: bool,
    k: int,
)
    requires
        0 <= k < regs.len(),
        !spec_ready(regs[k], e, tags, has_reply),
    ensures
        !spec_runs(regs, controls, e, tags, has_reply, k),
        spec_stopped(regs, controls, e, tags, has_reply, k + 1) == spec_stopped(
            regs,
            controls,
            e,
            tags,
            has_reply,
            k,
        ),
{
}

/// Wrapping an extractor in the optional combinator always resolves, and
/// its value carries exactly the success or absence the inner extractor
/// alone would report.
pub proof fn lemma_optional_always_succeeds(
    a: ArgSpec,
    e: Event,
    tags: Set<u64>,
    fetched: Option<Seq<Segment>>,
    r: Option<Extracted>,
)
    requires
        extract_matches(ArgSpec::Optional(Box::new(a)), e, tags, fetched, r),
    ensures
        spec_resolves(ArgSpec::Optional(Box::new(a)), e, tags, fetched is Some),
        r matches Some(x) && x matches Extracted::Optional(inner) && ((*inner is Some)
            == spec_resolves(a, e, tags, fetched is Some)),
{
    let x = r->Some_0;
    let inner = x->Optional_0;
    lemma_matches_decides_resolution(a, e, tags, fetched, *inner);
}

/// The first-match combinator adopts the first candidate that resolves:
/// whenever candidate `i` resolves and no earlier one does, the outcome is
/// candidate `i`'s, whatever the later candidates would have done.
pub proof fn lemma_one_of_picks_first(
    l: Vec<ArgSpec>,
    e: Event,
    tags: Set<u64>,
    fetched: Option<Seq<Segment>>,
    r: Option<Extracted>,
    i: int,
)
    requires
        extract_matches(ArgSpec::OneOf(l), e, tags, fetched, r),
        0 <= i < l@.len(),
        spec_resolves(l@[i], e, tags, fetched is Some),
        forall|j: int| 0 <= j < i ==> !spec_resolves(#[trigger] l@[j], e, tags, fetched is Some),
    ensures
        r matches Some(x) && x matches Extracted::OneOf(k, payload) && k as int == i
            && extract_matches(l@[i], e, tags, fetched, Some(*payload)),
{
    match r {
        Some(x) => {
            let k = x->OneOf_0;
            if (k as int) < i {
                assert(spec_resolves(l@[k as int], e, tags, fetched is Some));
            } else if (k as int) > i {
                assert(!spec_resolves(l@[i], e, tags, fetched is Some));
            }
        },
        Option::None => {
            assert(no_candidate_resolves_before(l@, e, tags, fetched is Some, l@.len() as int));
            assert(!spec_resolves(l@[i], e, tags, fetched is Some));
        },
    }
}

} // verus!
