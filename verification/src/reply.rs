//! The reply produced for a delivered queue message.  In this configuration
//! the callback answers every message with one fixed JSON payload and never
//! declines to reply.

use vstd::prelude::*;

verus! {

use vstd::string::StringExecFns;

/// One message delivered from the registered queue: the queue it arrived
/// on, the address a reply should go to, and the carried payload.
#[derive(Debug, Clone)]
pub struct QueueMessage {
    pub queuename: String,
    pub replyto: String,
    pub data: String,
}

/// The payload every reply carries.
pub open spec fn reply_payload() -> Seq<char> {
    "{\"payload\":\"Bettina\"}"@
}

/// Produces the reply for one delivered message: always the fixed payload,
/// never an absent reply, whatever the message holds.
pub fn reply_for(msg: &QueueMessage) -> (r: Option<String>)
    ensures
        r matches Some(p) && p@ == reply_payload(),
{
    Some(String::from_str("{\"payload\":\"Bettina\"}"))
}

} // verus!
