//! Request/response correlation.
//!
//! Every outgoing call carries a fresh echo token. A completion slot is
//! recorded under that token *before* the frame leaves, so a reply can never
//! race the registration; the read side hands each incoming frame here to be
//! classified, and a reply frame resolves the matching slot. A timed-out
//! entry is removed, and a reply that arrives after that is dropped in
//! silence — late replies are routine, not an error.
//!
//! The slot type is the caller's: the host keeps one single-use completion
//! signal per outstanding call.

use vstd::prelude::*;
use vstd::string::StringSliceAdditionalSpecFns;
use vstd::utf8::{decode_utf8, encode_utf8, encode_utf8_decode_utf8};

use crate::error::FlowError;
use crate::frame::{encode_call_frame, spec_call_frame};

verus! {

/// The fixed reply window, in milliseconds.
pub const CALL_TIMEOUT_MS: u64 = 30000;

/// Whether two strings hold the same characters.
fn str_eq(a: &str, b: &str) -> (r: bool)
    ensures
        r == (a@ == b@),
{
    proof {
        encode_utf8_decode_utf8(a@);
        encode_utf8_decode_utf8(b@);
    }
    let ab = a.as_bytes();
    let bb = b.as_bytes();
    if ab.len() != bb.len() {
        return false;
    }
    let mut i: usize = 0;
    while i < ab.len()
        invariant
            i <= ab@.len(),
            ab@.len() == bb@.len(),
            ab@ == a.spec_bytes(),
            bb@ == b.spec_bytes(),
            forall|j: int| 0 <= j < i ==> ab@[j] == bb@[j],
        decreases ab@.len() - i,
    {
        if ab[i] != bb[i] {
            return false;
        }
        i = i + 1;
    }
    proof {
        assert(ab@ =~= bb@);
        assert(decode_utf8(encode_utf8(a@)) == decode_utf8(encode_utf8(b@)));
    }
    true
}

/// The map a pending-entry list stands for: token characters to slot.
pub open spec fn pending_map_of<V>(s: Seq<(String, V)>) -> Map<Seq<char>, V>
    decreases s.len(),
{
    if s.len() == 0 {
        Map::empty()
    } else {
        pending_map_of(s.drop_last()).insert(s.last().0@, s.last().1)
    }
}

proof fn lemma_pending_map_dom<V>(s: Seq<(String, V)>)
    ensures
        forall|t: Seq<char>|
            pending_map_of(s).contains_key(t) <==> exists|i: int|
                0 <= i < s.len() && #[trigger] s[i].0@ == t,
    decreases s.len(),
{
    if s.len() > 0 {
        lemma_pending_map_dom(s.drop_last());
        assert forall|t: Seq<char>| pending_map_of(s).contains_key(t) implies exists|i: int|
            0 <= i < s.len() && #[trigger] s[i].0@ == t by {
            if s.last().0@ == t {
                assert(s[s.len() - 1].0@ == t);
            } else {
                assert(pending_map_of(s.drop_last()).contains_key(t));
                let i = choose|i: int| 0 <= i < s.drop_last().len() && #[trigger] s.drop_last()[i].0@
                    == t;
                assert(s.drop_last()[i] == s[i]);
                assert(s[i].0@ == t);
            }
        }
        assert forall|t: Seq<char>|
            (exists|i: int| 0 <= i < s.len() && #[trigger] s[i].0@ == t) implies pending_map_of(
            s,
        ).contains_key(t) by {
            let i = choose|i: int| 0 <= i < s.len() && #[trigger] s[i].0@ == t;
            if i < s.len() - 1 {
                assert(s.drop_last()[i] == s[i]);
                assert(s.drop_last()[i].0@ == t);
                assert(pending_map_of(s.drop_last()).contains_key(t));
            } else {
                assert(s.last().0@ == t);
            }
        }
    }
}

/// Distinct tokens across the entry list.
pub open spec fn tokens_distinct<V>(s: Seq<(String, V)>) -> bool {
    forall|i: int, j: int| 0 <= i < j < s.len() ==> #[trigger] s[i].0@ != #[trigger] s[j].0@
}

proof fn lemma_pending_map_index<V>(s: Seq<(String, V)>, i: int)
    requires
        tokens_distinct(s),
        0 <= i < s.len(),
    ensures
        pending_map_of(s).contains_key(s[i].0@),
        pending_map_of(s)[s[i].0@] == s[i].1,
    decreases s.len(),
{
    lemma_pending_map_dom(s);
    if i < s.len() - 1 {
        assert(s.drop_last()[i] == s[i]);
        assert(tokens_distinct(s.drop_last()));
        lemma_pending_map_index(s.drop_last(), i);
        assert(s[i].0@ != s.last().0@);
    }
}

proof fn lemma_pending_map_remove<V>(s: Seq<(String, V)>, k: int)
    requires
        tokens_distinct(s),
        0 <= k < s.len(),
    ensures
        pending_map_of(s.remove(k)) == pending_map_of(s).remove(s[k].0@),
        tokens_distinct(s.remove(k)),
    decreases s.len(),
{
    lemma_pending_map_dom(s.drop_last());
    if k == s.len() - 1 {
        assert(s.remove(k) =~= s.drop_last());
        assert(!pending_map_of(s.drop_last()).contains_key(s[k].0@));
        assert(pending_map_of(s.drop_last()) =~= pending_map_of(s.drop_last()).insert(
            s.last().0@,
            s.last().1,
        ).remove(s[k].0@));
    } else {
        assert(tokens_distinct(s.drop_last()));
        lemma_pending_map_remove(s.drop_last(), k);
        assert(s.remove(k).drop_last() =~= s.drop_last().remove(k));
        assert(s.remove(k).last() == s.last());
        assert(s[k].0@ != s.last().0@);
        assert(pending_map_of(s.remove(k)) == pending_map_of(s.drop_last().remove(k)).insert(
            s.last().0@,
            s.last().1,
        ));
        assert(pending_map_of(s.drop_last()).remove(s[k].0@).insert(s.last().0@, s.last().1)
            =~= pending_map_of(s.drop_last()).insert(s.last().0@, s.last().1).remove(s[k].0@));
        assert(forall|i: int, j: int|
            0 <= i < j < s.remove(k).len() ==> #[trigger] s.remove(k)[i].0@ != #[trigger] s.remove(
                k,
            )[j].0@);
    }
}

/// The pending-request table: one completion slot per outstanding token.
///
/// Its view is a map from token characters to the slot; the entry list never
/// holds one token twice.
pub struct PendingTable<V> {
    entries: Vec<(String, V)>,
}

impl<V> View for PendingTable<V> {
    type V = Map<Seq<char>, V>;

    closed spec fn view(&self) -> Map<Seq<char>, V> {
        pending_map_of(self.entries@)
    }
}

impl<V> PendingTable<V> {
    /// The tokens on file, in insertion order.
    pub closed spec fn spec_tokens(&self) -> Seq<Seq<char>> {
        self.entries@.map_values(|e: (String, V)| e.0@)
    }

    pub closed spec fn wf(&self) -> bool {
        tokens_distinct(self.entries@)
    }

    pub fn new() -> (r: PendingTable<V>)
        ensures
            r.wf(),
            r@ == Map::<Seq<char>, V>::empty(),
    {
        PendingTable { entries: Vec::new() }
    }

    /// The index holding the token, if any.
    fn find(&self, token: &str) -> (r: Option<usize>)
        ensures
            match r {
                Some(i) => i < self.entries@.len() && self.entries@[i as int].0@ == token@,
                None => forall|j: int|
                    0 <= j < self.entries@.len() ==> #[trigger] self.entries@[j].0@ != token@,
            },
    {
        let mut i: usize = 0;
        while i < self.entries.len()
            invariant
                i <= self.entries@.len(),
                forall|j: int| 0 <= j < i ==> #[trigger] self.entries@[j].0@ != token@,
            decreases self.entries@.len() - i,
        {
            if str_eq(self.entries[i].0.as_str(), token) {
                return Some(i);
            }
            i = i + 1;
        }
        None
    }

    pub fn contains_token(&self, token: &str) -> (r: bool)
        ensures
            r == self@.contains_key(token@),
    {
        proof {
            lemma_pending_map_dom(self.entries@);
        }
        self.find(token).is_some()
    }

    /// Record a slot under a token not yet on file.
    pub fn insert(&mut self, token: String, slot: V)
        requires
            old(self).wf(),
            !old(self)@.contains_key(token@),
        ensures
            final(self).wf(),
            final(self)@ == old(self)@.insert(token@, slot),
    {
        proof {
            lemma_pending_map_dom(self.entries@);
        }
        self.entries.push((token, slot));
        proof {
            assert(self.entries@.drop_last() =~= old(self).entries@);
        }
    }

    /// Remove and return the slot under a token; nothing happens when the
    /// token is not on file.
    pub fn take(&mut self, token: &str) -> (r: Option<V>)
        requires
            old(self).wf(),
        ensures
            final(self).wf(),
            old(self)@.contains_key(token@) ==> r == Some(old(self)@[token@]) && final(self)@
                == old(self)@.remove(token@),
            !old(self)@.contains_key(token@) ==> r is None && *final(self) == *old(self),
    {
        proof {
            lemma_pending_map_dom(self.entries@);
        }
        match self.find(token) {
            Some(i) => {
                proof {
                    lemma_pending_map_index(self.entries@, i as int);
                    lemma_pending_map_remove(self.entries@, i as int);
                }
                let (_, slot) = self.entries.remove(i);
                Some(slot)
            },
            None => None,
        }
    }
}

/// What the JSON reader finds as the top-level `echo` member of a text:
/// that member's string value, where the text parses as an object carrying
/// one, and nothing otherwise. A fixed function of the text alone.
pub uninterp spec fn echo_of(s: Seq<char>) -> Option<Seq<char>>;

/// Relies on serde_json::from_str and serde_json::Value::get: reads the
/// top-level `echo` string member of a JSON text, if the text parses as an
/// object that has one.
#[verifier::external_body]
fn top_level_echo(text: &str) -> (r: Option<String>)
    ensures
        r matches Some(t) ==> echo_of(text@) == Some(t@),
        r is None ==> echo_of(text@) is None,
{
    match serde_json::from_str::<serde_json::Value>(text) {
        Ok(v) => match v.get("echo") {
            Some(serde_json::Value::String(e)) => Some(e.clone()),
            _ => None,
        },
        _ => None,
    }
}

/// Relies on uuid::Uuid::new_v4 and its hyphenated display form: a fresh
/// random identifier, rendered as 36 characters. Nothing relates two calls.
#[verifier::external_body]
fn fresh_token() -> (r: String)
    ensures
        r@.len() == 36,
{
    uuid::Uuid::new_v4().to_string()
}

/// What the read loop does with one inbound frame.
#[derive(Debug, PartialEq, Eq)]
pub enum FrameClass {
    /// The frame answers the outstanding call holding this token.
    Reply(String),
    /// The frame is an event to dispatch.
    Push,
}

/// How the wait for a reply ended.
#[derive(Debug, PartialEq, Eq)]
pub enum CallWait {
    /// The completion slot fired with the reply text before the deadline.
    Reply(String),
    /// The slot's producer vanished without firing.
    Closed,
    /// The deadline passed.
    TimedOut,
}

/// The correlation engine: the pending table, and whether a socket is
/// attached. The socket itself stays with the host; the engine tracks only
/// that one is there to write to.
pub struct Correlator<V> {
    connected: bool,
    pending: PendingTable<V>,
}

impl<V> Correlator<V> {
    pub closed spec fn wf(&self) -> bool {
        self.pending.wf()
    }

    /// The outstanding calls: token characters to completion slot.
    pub closed spec fn pending_map(&self) -> Map<Seq<char>, V> {
        self.pending@
    }

    /// Whether a socket is attached.
    pub closed spec fn is_connected(&self) -> bool {
        self.connected
    }

    /// A fresh engine: nothing pending, no socket attached.
    pub fn new() -> (r: Correlator<V>)
        ensures
            r.wf(),
            r.pending_map() == Map::<Seq<char>, V>::empty(),
            !r.is_connected(),
    {
        Correlator { connected: false, pending: PendingTable::new() }
    }

    /// Note that the host has attached a socket.
    pub fn attach(&mut self)
        requires
            old(self).wf(),
        ensures
            final(self).wf(),
            final(self).is_connected(),
            final(self).pending_map() == old(self).pending_map(),
    {
        self.connected = true;
    }

    /// Note that the socket is gone.
    pub fn detach(&mut self)
        requires
            old(self).wf(),
        ensures
            final(self).wf(),
            !final(self).is_connected(),
            final(self).pending_map() == old(self).pending_map(),
    {
        self.connected = false;
    }

    /// Draw a correlation token not yet on file. Each draw is random; after
    /// a bounded number of collisions the attempt is given up, which a
    /// 36-character random token never reaches in practice.
    pub fn issue_token(&self) -> (r: Option<String>)
        ensures
            r matches Some(t) ==> !self.pending_map().contains_key(t@) && t@.len() == 36,
    {
        let mut attempts: usize = 0;
        while attempts < 16
            decreases 16 - attempts,
        {
            let t = fresh_token();
            if !self.pending.contains_token(t.as_str()) {
                return Some(t);
            }
            attempts = attempts + 1;
        }
        None
    }

    /// Open a call: record the completion slot under the token, then hand
    /// back the frame to transmit. The entry is on file before any byte can
    /// leave, so a reply cannot race the registration. With no socket
    /// attached nothing is recorded and the call fails at once.
    pub fn begin_call(&mut self, action: &str, params: &[u8], token: String, slot: V) -> (r: Result<
        Vec<u8>,
        FlowError,
    >)
        requires
            old(self).wf(),
            !old(self).pending_map().contains_key(token@),
        ensures
            final(self).wf(),
            final(self).is_connected() == old(self).is_connected(),
            old(self).is_connected() ==> {
                &&& r matches Ok(frame) && frame@ == spec_call_frame(
                    action.spec_bytes(),
                    params@,
                    encode_utf8(token@),
                )
                &&& final(self).pending_map() == old(self).pending_map().insert(token@, slot)
            },
            !old(self).is_connected() ==> r == Err::<Vec<u8>, FlowError>(FlowError::NoConnection)
                && final(self).pending_map() == old(self).pending_map(),
    {
        if !self.connected {
            return Err(FlowError::NoConnection);
        }
        let frame = encode_call_frame(action, params, token.as_str());
        self.pending.insert(token, slot);
        Ok(frame)
    }

    /// Reply intake, run by the read loop: remove the matching entry and
    /// hand its slot back so the caller's signal can fire. An unmatched
    /// token — timed out, unknown or repeated — resolves nothing and is
    /// dropped in silence.
    pub fn on_recv_echo(&mut self, token: &str) -> (r: Option<V>)
        requires
            old(self).wf(),
        ensures
            final(self).wf(),
            final(self).is_connected() == old(self).is_connected(),
            old(self).pending_map().contains_key(token@) ==> r == Some(
                old(self).pending_map()[token@],
            ) && final(self).pending_map() == old(self).pending_map().remove(token@),
            !old(self).pending_map().contains_key(token@) ==> r is None && final(self).pending_map()
                == old(self).pending_map(),
    {
        self.pending.take(token)
    }

    /// Settle a call once its wait has ended: a reply resolves to the reply
    /// text; a vanished producer means no response will ever come; on a
    /// timeout the stale entry is removed so a late reply finds nothing.
    pub fn finish_call(&mut self, token: &str, outcome: CallWait) -> (r: Result<String, FlowError>)
        requires
            old(self).wf(),
        ensures
            final(self).wf(),
            final(self).is_connected() == old(self).is_connected(),
            match outcome {
                CallWait::Reply(s) => r == Ok::<String, FlowError>(s) && final(self).pending_map()
                    == old(self).pending_map(),
                CallWait::Closed => r == Err::<String, FlowError>(FlowError::NoResponse)
                    && final(self).pending_map() == old(self).pending_map(),
                CallWait::TimedOut => r == Err::<String, FlowError>(FlowError::Timeout(CALL_TIMEOUT_MS))
                    && final(self).pending_map() == old(self).pending_map().remove(token@),
            },
    {
        match outcome {
            CallWait::Reply(s) => Ok(s),
            CallWait::Closed => Err(FlowError::NoResponse),
            CallWait::TimedOut => {
                let _ = self.pending.take(token);
                proof {
                    if !old(self).pending_map().contains_key(token@) {
                        assert(old(self).pending_map() =~= old(self).pending_map().remove(token@));
                    }
                }
                Err(FlowError::Timeout(CALL_TIMEOUT_MS))
            },
        }
    }

    /// Classify one inbound frame: a reply exactly when it bears an echo
    /// token with a matching pending entry; anything else is an event.
    pub fn classify(&self, text: &str) -> (r: FrameClass)
        ensures
            r matches FrameClass::Reply(t) ==> echo_of(text@) == Some(t@)
                && self.pending_map().contains_key(t@),
            r is Push ==> match echo_of(text@) {
                Some(e) => !self.pending_map().contains_key(e),
                None => true,
            },
    {
        match top_level_echo(text) {
            Some(tok) => {
                if self.pending.contains_token(tok.as_str()) {
                    FrameClass::Reply(tok)
                } else {
                    FrameClass::Push
                }
            },
            None => FrameClass::Push,
        }
    }
}

/// Tokens on file never repeat: each outstanding call owns its token alone.
pub proof fn lemma_tokens_unique<V>(t: &PendingTable<V>, i: int, j: int)
    requires
        t.wf(),
        0 <= i < j < t.spec_tokens().len(),
    ensures
        t.spec_tokens()[i] != t.spec_tokens()[j],
{
}

/// A reply that arrives for a token already removed — timed out, unknown or
/// already answered — finds nothing to resolve and changes nothing.
pub proof fn lemma_late_reply_silent<V>(m: Map<Seq<char>, V>, t: Seq<char>)
    ensures
        !m.remove(t).contains_key(t),
{
}

} // verus!
