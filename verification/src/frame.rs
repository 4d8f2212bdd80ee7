//! The outgoing wire envelope.
//!
//! An outgoing call travels as one JSON object:
//! `{"action": <name>, "params": <object>, "echo": <correlation token>}`.
//! This module renders that envelope, and a general JSON object whose members
//! arrive one by one, byte for byte.

use vstd::prelude::*;
use vstd::string::StringSliceAdditionalSpecFns;

use crate::json::{
    push_all, push_dec_i64, push_json_string, spec_dec_i64, spec_json_string,
};

verus! {

/// The rendering of an object's members, in order, separated by commas.
pub open spec fn spec_members(ms: Seq<(Seq<u8>, Seq<u8>)>) -> Seq<u8>
    decreases ms.len(),
{
    if ms.len() == 0 {
        seq![]
    } else {
        spec_members(ms.drop_last()) + (if ms.len() == 1 {
            seq![]
        } else {
            seq![0x2cu8]
        }) + spec_json_string(ms.last().0) + seq![0x3au8] + ms.last().1
    }
}

/// A whole JSON object over an ordered member list.
pub open spec fn spec_object(ms: Seq<(Seq<u8>, Seq<u8>)>) -> Seq<u8> {
    seq![0x7bu8] + spec_members(ms) + seq![0x7du8]
}

/// A JSON object under construction. Members are appended in call order;
/// the view is the list of (key bytes, rendered value bytes) so far.
pub struct JsonObject {
    buf: Vec<u8>,
    empty: bool,
    members: Ghost<Seq<(Seq<u8>, Seq<u8>)>>,
}

impl View for JsonObject {
    type V = Seq<(Seq<u8>, Seq<u8>)>;

    closed spec fn view(&self) -> Seq<(Seq<u8>, Seq<u8>)> {
        self.members@
    }
}

impl JsonObject {
    /// The buffer holds exactly the opening brace and the members so far.
    pub closed spec fn wf(&self) -> bool {
        &&& self.buf@ == seq![0x7bu8] + spec_members(self.members@)
        &&& self.empty <==> self.members@.len() == 0
    }

    pub fn new() -> (r: JsonObject)
        ensures
            r.wf(),
            r@ == Seq::<(Seq<u8>, Seq<u8>)>::empty(),
    {
        let mut buf: Vec<u8> = Vec::new();
        buf.push(0x7b);
        proof {
            assert(buf@ =~= seq![0x7bu8] + spec_members(Seq::<(Seq<u8>, Seq<u8>)>::empty()));
        }
        JsonObject { buf, empty: true, members: Ghost(Seq::empty()) }
    }

    /// Append one member whose value is already rendered JSON.
    fn push_member(&mut self, key: &str, val: &[u8])
        requires
            old(self).wf(),
        ensures
            final(self).wf(),
            final(self)@ == old(self)@.push((key.spec_bytes(), val@)),
    {
        if !self.empty {
            self.buf.push(0x2c);
        }
        push_json_string(&mut self.buf, key);
        self.buf.push(0x3a);
        push_all(&mut self.buf, val);
        self.empty = false;
        proof {
            let ms = self.members@.push((key.spec_bytes(), val@));
            assert(ms.drop_last() =~= self.members@);
            assert(self.buf@ =~= seq![0x7bu8] + spec_members(ms));
            self.members@ = ms;
        }
    }

    /// Append a member holding a JSON string.
    pub fn str_member(&mut self, key: &str, val: &str)
        requires
            old(self).wf(),
        ensures
            final(self).wf(),
            final(self)@ == old(self)@.push(
                (key.spec_bytes(), spec_json_string(val.spec_bytes())),
            ),
    {
        let mut v: Vec<u8> = Vec::new();
        push_json_string(&mut v, val);
        proof {
            assert(v@ =~= spec_json_string(val.spec_bytes()));
        }
        self.push_member(key, v.as_slice());
    }

    /// Append a member holding a signed integer.
    pub fn i64_member(&mut self, key: &str, val: i64)
        requires
            old(self).wf(),
        ensures
            final(self).wf(),
            final(self)@ == old(self)@.push((key.spec_bytes(), spec_dec_i64(val as int))),
    {
        let mut v: Vec<u8> = Vec::new();
        push_dec_i64(&mut v, val);
        proof {
            assert(v@ =~= spec_dec_i64(val as int));
        }
        self.push_member(key, v.as_slice());
    }

    /// Append a member holding `true`, `false` or `null`.
    pub fn opt_bool_member(&mut self, key: &str, val: Option<bool>)
        requires
            old(self).wf(),
        ensures
            final(self).wf(),
            final(self)@ == old(self)@.push((key.spec_bytes(), spec_opt_bool(val))),
    {
        let mut v: Vec<u8> = Vec::new();
        match val {
            Some(true) => {
                v.push(0x74);
                v.push(0x72);
                v.push(0x75);
                v.push(0x65);
            },
            Some(false) => {
                v.push(0x66);
                v.push(0x61);
                v.push(0x6c);
                v.push(0x73);
                v.push(0x65);
            },
            None => {
                v.push(0x6e);
                v.push(0x75);
                v.push(0x6c);
                v.push(0x6c);
            },
        }
        proof {
            assert(v@ =~= spec_opt_bool(val));
        }
        self.push_member(key, v.as_slice());
    }

    /// Append a member whose value arrives already rendered as JSON text,
    /// for payloads the caller has serialized itself.
    pub fn raw_member(&mut self, key: &str, val: &[u8])
        requires
            old(self).wf(),
        ensures
            final(self).wf(),
            final(self)@ == old(self)@.push((key.spec_bytes(), val@)),
    {
        self.push_member(key, val);
    }

    /// Close the object and hand back its bytes.
    pub fn finish(self) -> (r: Vec<u8>)
        requires
            self.wf(),
        ensures
            r@ == spec_object(self@),
    {
        let JsonObject { mut buf, empty: _, members } = self;
        buf.push(0x7d);
        proof {
            assert(buf@ =~= spec_object(members@));
        }
        buf
    }
}

/// `true`, `false` or `null`, as bytes.
pub open spec fn spec_opt_bool(v: Option<bool>) -> Seq<u8> {
    match v {
        Some(true) => seq![0x74u8, 0x72u8, 0x75u8, 0x65u8],
        Some(false) => seq![0x66u8, 0x61u8, 0x6cu8, 0x73u8, 0x65u8],
        None => seq![0x6eu8, 0x75u8, 0x6cu8, 0x6cu8],
    }
}

/// The call envelope: action name, parameter object, correlation token.
pub open spec fn spec_call_frame(action: Seq<u8>, params: Seq<u8>, echo: Seq<u8>) -> Seq<u8> {
    spec_object(
        seq![
            ("action".spec_bytes(), spec_json_string(action)),
            ("params".spec_bytes(), params),
            ("echo".spec_bytes(), spec_json_string(echo)),
        ],
    )
}

/// Render the outgoing call envelope. `params` must already be rendered
/// JSON, normally from [`JsonObject::finish`].
pub fn encode_call_frame(action: &str, params: &[u8], echo: &str) -> (r: Vec<u8>)
    ensures
        r@ == spec_call_frame(action.spec_bytes(), params@, echo.spec_bytes()),
{
    let mut obj = JsonObject::new();
    obj.str_member("action", action);
    obj.raw_member("params", params);
    obj.str_member("echo", echo);
    let r = obj.finish();
    proof {
        assert(seq![
            ("action".spec_bytes(), spec_json_string(action.spec_bytes())),
            ("params".spec_bytes(), params@),
            ("echo".spec_bytes(), spec_json_string(echo.spec_bytes())),
        ] =~= Seq::<(Seq<u8>, Seq<u8>)>::empty().push(
            ("action".spec_bytes(), spec_json_string(action.spec_bytes())),
        ).push(("params".spec_bytes(), params@)).push(
            ("echo".spec_bytes(), spec_json_string(echo.spec_bytes())),
        ));
    }
    r
}

} // verus!
