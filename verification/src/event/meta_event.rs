//! Meta events: lifecycle notices and heartbeats from the remote side.

use vstd::prelude::*;

use crate::api::BotStatus;

verus! {

#[derive(Clone, Copy, Debug, PartialEq, Eq, Structural)]
pub enum LifecycleSubType {
    Enable,
    Disable,
    Connect,
}

#[derive(Clone, Copy, Debug, PartialEq, Eq, Structural)]
pub struct Lifecycle {
    pub sub_type: LifecycleSubType,
}

#[derive(Debug)]
pub struct Heartbeat {
    pub interval: i64,
    pub status: BotStatus,
}

#[derive(Debug)]
pub enum MetaEvent {
    Lifecycle(Lifecycle),
    Heartbeat(Heartbeat),
}

} // verus!
