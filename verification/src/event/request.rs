//! Request events: friend requests and group join or invite requests.

use vstd::prelude::*;

verus! {

#[derive(Debug, PartialEq, Eq)]
pub struct FriendRequest {
    pub user_id: i64,
    pub comment: String,
    pub flag: String,
}

#[derive(Clone, Copy, Debug, PartialEq, Eq, Structural)]
pub enum GroupRequestSubType {
    Add,
    Invite,
}

#[derive(Debug, PartialEq, Eq)]
pub struct GroupRequest {
    pub user_id: i64,
    pub sub_type: GroupRequestSubType,
    pub group_id: i64,
    pub comment: String,
    pub flag: String,
}

#[derive(Debug, PartialEq, Eq)]
pub enum Request {
    Friend(FriendRequest),
    Group(GroupRequest),
}

} // verus!
