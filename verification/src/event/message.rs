//! The message event: who sent what, privately or in a group.

use vstd::prelude::*;

use crate::message::{i64_to_string, is_single_text, spec_dec_chars_i64, IntoMessage};
use crate::segments::{clone_opt_string, ReplySegment, Segment};

verus! {

#[derive(Clone, Copy, Debug, PartialEq, Eq, Structural)]
pub enum PrivateSubType {
    Friend,
    Group,
    Other,
}

#[derive(Clone, Copy, Debug, PartialEq, Eq, Structural)]
pub enum GroupSubType {
    Normal,
    Anonymous,
    Notice,
}

#[derive(Clone, Copy, Debug, PartialEq, Eq, Structural)]
pub enum SenderSex {
    Male,
    Female,
    Unknown,
}

#[derive(Debug, PartialEq, Eq)]
pub struct PrivateSenderInfo {
    pub user_id: Option<i64>,
    pub nickname: Option<String>,
    pub sex: Option<SenderSex>,
    pub age: Option<i32>,
}

impl Clone for PrivateSenderInfo {
    fn clone(&self) -> (r: Self)
        ensures
            r == *self,
    {
        PrivateSenderInfo {
            user_id: self.user_id,
            nickname: clone_opt_string(&self.nickname),
            sex: self.sex,
            age: self.age,
        }
    }
}

#[derive(Debug, PartialEq, Eq)]
pub struct PrivateMessageInfo {
    pub sub_type: PrivateSubType,
    pub sender: PrivateSenderInfo,
}

#[derive(Clone, Copy, Debug, PartialEq, Eq, Structural)]
pub enum GroupSenderRole {
    Owner,
    Admin,
    Member,
}

#[derive(Debug, PartialEq, Eq)]
pub struct GroupSenderInfo {
    pub user_id: Option<i64>,
    pub nickname: Option<String>,
    pub card: Option<String>,
    pub sex: Option<SenderSex>,
    pub age: Option<i32>,
    pub area: Option<String>,
    pub level: Option<String>,
    pub role: Option<GroupSenderRole>,
    pub title: Option<String>,
}

impl Clone for GroupSenderInfo {
    fn clone(&self) -> (r: Self)
        ensures
            r == *self,
    {
        GroupSenderInfo {
            user_id: self.user_id,
            nickname: clone_opt_string(&self.nickname),
            card: clone_opt_string(&self.card),
            sex: self.sex,
            age: self.age,
            area: clone_opt_string(&self.area),
            level: clone_opt_string(&self.level),
            role: self.role,
            title: clone_opt_string(&self.title),
        }
    }
}

#[derive(Debug, PartialEq, Eq)]
pub struct GroupAnonymousInfo {
    pub id: i64,
    pub name: String,
    pub flag: String,
}

impl Clone for GroupAnonymousInfo {
    fn clone(&self) -> (r: Self)
        ensures
            r == *self,
    {
        GroupAnonymousInfo { id: self.id, name: self.name.clone(), flag: self.flag.clone() }
    }
}

#[derive(Debug, PartialEq, Eq)]
pub struct GroupMessageInfo {
    pub sub_type: GroupSubType,
    pub group_id: i64,
    pub sender: GroupSenderInfo,
    pub anonymous: Option<GroupAnonymousInfo>,
}

/// The part of a message event that depends on where it was sent.
#[derive(Debug, PartialEq, Eq)]
pub enum TypedMessageInfo {
    Group(GroupMessageInfo),
    Private(PrivateMessageInfo),
}

/// One message event.
#[derive(Debug, PartialEq, Eq)]
pub struct Message {
    pub message_id: i32,
    pub user_id: i64,
    pub message: Vec<Segment>,
    pub raw_message: String,
    pub font: i32,
    pub info: TypedMessageInfo,
}

impl Message {
    /// A message that quotes this one: a reply segment naming this message,
    /// followed by the given content.
    pub fn reply<T: IntoMessage>(&self, message: T) -> (r: Vec<Segment>)
        ensures
            r@.len() == 2,
            r@[0] matches Segment::Reply(rs) && rs.id@ == spec_dec_chars_i64(
                self.message_id as int,
            ),
            is_single_text(r@.skip(1), message.spec_text()),
    {
        let mut ret: Vec<Segment> = Vec::new();
        ret.push(Segment::Reply(ReplySegment { id: i64_to_string(self.message_id as i64) }));
        let mut tail = message.into_message();
        let ghost tailv = tail@;
        ret.append(&mut tail);
        proof {
            assert(ret@.skip(1) =~= tailv);
        }
        ret
    }
}

} // verus!
