//! The reply envelope of the action API, the typed response payloads, and
//! the rendered parameter objects of the message-sending actions.
//!
//! The action catalogue itself is a thin collaborator: each remote action is
//! one call with named parameters. What is rendered here — the parameter
//! objects — is pinned byte for byte; decoding typed replies from JSON is
//! the host's affair.

use std::collections::HashMap;
use vstd::prelude::*;
use vstd::string::StringSliceAdditionalSpecFns;

use crate::event::message::{GroupSenderInfo, GroupSenderRole, PrivateSenderInfo, SenderSex};
use crate::frame::{spec_object, spec_opt_bool, JsonObject};
use crate::json::{spec_dec_i64, spec_json_string};
use crate::segments::Segment;

verus! {

#[derive(Clone, Copy, Debug, PartialEq, Eq, Structural)]
pub enum ApiRetStatus {
    Okay,
    Async,
    Failed,
}

/// The reply envelope: a status, a return code, the typed payload, and the
/// correlation token the reply answers to.
#[derive(Debug)]
pub struct ApiResponse<T> {
    pub status: ApiRetStatus,
    pub retcode: i32,
    pub data: T,
    pub echo: Option<String>,
}

#[derive(Debug)]
pub struct BotStatus {
    pub online: Option<bool>,
    pub good: bool,
    pub data: HashMap<String, String>,
}

#[derive(Clone, Copy, Debug, PartialEq, Eq, Structural)]
pub struct SendMessageResponse {
    pub message_id: i64,
}

#[derive(Debug)]
pub enum GetMessageType {
    Private { sender: PrivateSenderInfo },
    Group { sender: GroupSenderInfo },
}

#[derive(Debug)]
pub struct GetMessageResponse {
    pub time: i32,
    pub message_id: i32,
    pub real_id: i32,
    pub message: Vec<Segment>,
    pub ty: GetMessageType,
}

#[derive(Debug)]
pub struct GetForwardResponse {
    pub message: Vec<Segment>,
}

#[derive(Debug, PartialEq, Eq)]
pub struct LoginInfo {
    pub user_id: i64,
    pub nickname: String,
}

#[derive(Debug, PartialEq, Eq)]
pub struct StrangerInfo {
    pub user_id: i64,
    pub nickname: String,
    pub sex: SenderSex,
    pub age: i32,
}

#[derive(Debug, PartialEq, Eq)]
pub struct FriendInfo {
    pub user_id: i64,
    pub nickname: String,
    pub remark: String,
}

#[derive(Debug, PartialEq, Eq)]
pub struct GroupInfoResponse {
    pub group_id: i64,
    pub group_name: String,
    pub member_count: i32,
    pub max_member_count: i32,
}

#[derive(Debug, PartialEq, Eq)]
pub struct GroupMemberInfo {
    pub group_id: i64,
    pub user_id: i64,
    pub nickname: String,
    pub card: String,
    pub sex: SenderSex,
    pub age: i32,
    pub area: Option<String>,
    pub join_time: i32,
    pub last_sent_time: i32,
    pub level: String,
    pub role: GroupSenderRole,
    pub unfriendly: bool,
    pub title: Option<String>,
    pub title_expire_time: i32,
    pub card_changeable: bool,
}

#[derive(Debug, PartialEq, Eq)]
pub struct TalkativeInfo {
    pub user_id: i64,
    pub nickname: String,
    pub avatar: String,
    pub day_count: i32,
}

#[derive(Debug, PartialEq, Eq)]
pub struct HonorInfo {
    pub user_id: i64,
    pub nickname: String,
    pub avatar: String,
    pub description: String,
}

#[derive(Debug)]
pub struct GroupHonorInfo {
    pub group_id: i64,
    pub current_talkative: Option<TalkativeInfo>,
    pub talkative_list: Option<Vec<HonorInfo>>,
    pub performer_list: Option<Vec<HonorInfo>>,
    pub legend_list: Option<Vec<HonorInfo>>,
    pub strong_newbie_list: Option<Vec<HonorInfo>>,
    pub emotion_list: Option<Vec<HonorInfo>>,
}

#[derive(Clone, Copy, Debug, PartialEq, Eq, Structural)]
pub enum GroupHonorType {
    Talkative,
    Performer,
    Legend,
    StrongNewbie,
    Emotion,
    All,
}

impl GroupHonorType {
    /// The name this honor kind carries on the wire.
    pub open spec fn spec_name(&self) -> Seq<char> {
        match self {
            GroupHonorType::Talkative => "talkative"@,
            GroupHonorType::Performer => "performer"@,
            GroupHonorType::Legend => "legend"@,
            GroupHonorType::StrongNewbie => "strong_newbie"@,
            GroupHonorType::Emotion => "emotion"@,
            GroupHonorType::All => "all"@,
        }
    }

    pub fn wire_name(&self) -> (r: &str)
        ensures
            r@ == self.spec_name(),
    {
        match self {
            GroupHonorType::Talkative => "talkative",
            GroupHonorType::Performer => "performer",
            GroupHonorType::Legend => "legend",
            GroupHonorType::StrongNewbie => "strong_newbie",
            GroupHonorType::Emotion => "emotion",
            GroupHonorType::All => "all",
        }
    }
}

#[derive(Debug, PartialEq, Eq)]
pub struct GetCookiesResponse {
    pub cookies: String,
}

#[derive(Clone, Copy, Debug, PartialEq, Eq, Structural)]
pub struct GetCsrfTokenResponse {
    pub token: i32,
}

#[derive(Debug, PartialEq, Eq)]
pub struct GetCredentialsResponse {
    pub cookies: String,
    pub csrf_token: i32,
}

#[derive(Debug, PartialEq, Eq)]
pub struct GetFileResponse {
    pub file: String,
}

#[derive(Clone, Copy, Debug, PartialEq, Eq, Structural)]
pub enum RecordFormat {
    Mp3,
    Amr,
    Wma,
    M4a,
    Spx,
    Ogg,
    Wav,
    Flac,
}

#[derive(Clone, Copy, Debug, PartialEq, Eq, Structural)]
pub struct CanSendResponse {
    pub yes: bool,
}

#[derive(Debug)]
pub struct VersionInfo {
    pub app_name: String,
    pub app_version: String,
    pub protocol_version: String,
    pub data: HashMap<String, String>,
}

/// The parameter object of a private message send: the addressee, the
/// already-rendered message payload, and the escape flag.
pub fn send_private_message_params(user_id: i64, message_json: &[u8], auto_escape: Option<bool>)
    -> (r: Vec<u8>)
    ensures
        r@ == spec_object(
            seq![
                ("user_id".spec_bytes(), spec_dec_i64(user_id as int)),
                ("message".spec_bytes(), message_json@),
                ("auto_escape".spec_bytes(), spec_opt_bool(auto_escape)),
            ],
        ),
{
    let mut obj = JsonObject::new();
    obj.i64_member("user_id", user_id);
    obj.raw_member("message", message_json);
    obj.opt_bool_member("auto_escape", auto_escape);
    let r = obj.finish();
    proof {
        assert(seq![
            ("user_id".spec_bytes(), spec_dec_i64(user_id as int)),
            ("message".spec_bytes(), message_json@),
            ("auto_escape".spec_bytes(), spec_opt_bool(auto_escape)),
        ] =~= Seq::<(Seq<u8>, Seq<u8>)>::empty().push(
            ("user_id".spec_bytes(), spec_dec_i64(user_id as int)),
        ).push(("message".spec_bytes(), message_json@)).push(
            ("auto_escape".spec_bytes(), spec_opt_bool(auto_escape)),
        ));
    }
    r
}

/// The parameter object of a group message send.
pub fn send_group_message_params(group_id: i64, message_json: &[u8], auto_escape: Option<bool>)
    -> (r: Vec<u8>)
    ensures
        r@ == spec_object(
            seq![
                ("group_id".spec_bytes(), spec_dec_i64(group_id as int)),
                ("message".spec_bytes(), message_json@),
                ("auto_escape".spec_bytes(), spec_opt_bool(auto_escape)),
            ],
        ),
{
    let mut obj = JsonObject::new();
    obj.i64_member("group_id", group_id);
    obj.raw_member("message", message_json);
    obj.opt_bool_member("auto_escape", auto_escape);
    let r = obj.finish();
    proof {
        assert(seq![
            ("group_id".spec_bytes(), spec_dec_i64(group_id as int)),
            ("message".spec_bytes(), message_json@),
            ("auto_escape".spec_bytes(), spec_opt_bool(auto_escape)),
        ] =~= Seq::<(Seq<u8>, Seq<u8>)>::empty().push(
            ("group_id".spec_bytes(), spec_dec_i64(group_id as int)),
        ).push(("message".spec_bytes(), message_json@)).push(
            ("auto_escape".spec_bytes(), spec_opt_bool(auto_escape)),
        ));
    }
    r
}

/// A parameter object of one named integer, as most lookup actions take.
pub fn int_param(key: &str, val: i64) -> (r: Vec<u8>)
    ensures
        r@ == spec_object(seq![(key.spec_bytes(), spec_dec_i64(val as int))]),
{
    let mut obj = JsonObject::new();
    obj.i64_member(key, val);
    let r = obj.finish();
    proof {
        assert(seq![(key.spec_bytes(), spec_dec_i64(val as int))]
            =~= Seq::<(Seq<u8>, Seq<u8>)>::empty().push(
            (key.spec_bytes(), spec_dec_i64(val as int)),
        ));
    }
    r
}

/// A parameter object of one named string.
pub fn str_param(key: &str, val: &str) -> (r: Vec<u8>)
    ensures
        r@ == spec_object(seq![(key.spec_bytes(), spec_json_string(val.spec_bytes()))]),
{
    let mut obj = JsonObject::new();
    obj.str_member(key, val);
    let r = obj.finish();
    proof {
        assert(seq![(key.spec_bytes(), spec_json_string(val.spec_bytes()))]
            =~= Seq::<(Seq<u8>, Seq<u8>)>::empty().push(
            (key.spec_bytes(), spec_json_string(val.spec_bytes())),
        ));
    }
    r
}

/// The empty parameter object, for actions that take none.
pub fn no_params() -> (r: Vec<u8>)
    ensures
        r@ == spec_object(Seq::<(Seq<u8>, Seq<u8>)>::empty()),
{
    let obj = JsonObject::new();
    obj.finish()
}

} // verus!
