//! Notice events: uploads, membership changes, bans, recalls and the like.

use std::collections::HashMap;
use vstd::prelude::*;

verus! {

#[derive(Debug, PartialEq, Eq)]
pub struct GroupFile {
    pub id: String,
    pub name: String,
    pub size: i64,
    pub busid: i64,
}

#[derive(Debug, PartialEq, Eq)]
pub struct GroupUpload {
    pub group_id: i64,
    pub user_id: i64,
    pub file: GroupFile,
}

#[derive(Clone, Copy, Debug, PartialEq, Eq, Structural)]
pub enum GroupAdminSubType {
    SetAdmin,
    UnsetAdmin,
}

#[derive(Clone, Copy, Debug, PartialEq, Eq, Structural)]
pub struct GroupAdmin {
    pub group_id: i64,
    pub user_id: i64,
    pub sub_type: GroupAdminSubType,
}

#[derive(Clone, Copy, Debug, PartialEq, Eq, Structural)]
pub enum GroupDecreaseSubType {
    Leave,
    Kick,
    KickMe,
}

#[derive(Clone, Copy, Debug, PartialEq, Eq, Structural)]
pub struct GroupDecrease {
    pub group_id: i64,
    pub user_id: i64,
    pub operator_id: i64,
    pub sub_type: GroupDecreaseSubType,
}

#[derive(Clone, Copy, Debug, PartialEq, Eq, Structural)]
pub enum GroupIncreaseSubType {
    Approve,
    Invite,
}

#[derive(Clone, Copy, Debug, PartialEq, Eq, Structural)]
pub struct GroupIncrease {
    pub group_id: i64,
    pub user_id: i64,
    pub operator_id: i64,
    pub sub_type: GroupIncreaseSubType,
}

#[derive(Clone, Copy, Debug, PartialEq, Eq, Structural)]
pub enum GroupBanSubType {
    Ban,
    LiftBan,
}

#[derive(Clone, Copy, Debug, PartialEq, Eq, Structural)]
pub struct GroupBan {
    pub group_id: i64,
    pub user_id: i64,
    pub operator_id: i64,
    pub sub_type: GroupBanSubType,
    pub duration: i64,
}

#[derive(Clone, Copy, Debug, PartialEq, Eq, Structural)]
pub struct FriendAdd {
    pub user_id: i64,
}

#[derive(Clone, Copy, Debug, PartialEq, Eq, Structural)]
pub struct GroupRecall {
    pub group_id: i64,
    pub user_id: i64,
    pub operator_id: i64,
    pub message_id: i64,
}

#[derive(Clone, Copy, Debug, PartialEq, Eq, Structural)]
pub struct FriendRecall {
    pub user_id: i64,
    pub message_id: i64,
}

/// A notice event. Unrecognized notify payloads keep their fields as raw
/// JSON text, keyed by field name.
#[derive(Debug)]
pub enum Notice {
    GroupUpload(GroupUpload),
    GroupAdmin(GroupAdmin),
    GroupDecrease(GroupDecrease),
    GroupIncrease(GroupIncrease),
    GroupBan(GroupBan),
    FriendAdd(FriendAdd),
    GroupRecall(GroupRecall),
    FriendRecall(FriendRecall),
    Notify { data: HashMap<String, String> },
}

} // verus!
