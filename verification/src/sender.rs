//! The repeating sender that runs for one text channel.

use crate::repeat::{after, fresh, issues, Progress, Repeater, Signal};
use crate::text::{mention, mention_text};
use vstd::prelude::*;

verus! {

/// One message to submit to a channel.
#[derive(Debug)]
pub struct SendRequest {
    pub channel_id: u64,
    pub content: String,
}

/// The sender of one channel: it mentions `ping_id` in `channel_id` again and
/// again, each message only after the previous one was accepted.
#[derive(Clone, Copy, Debug, PartialEq, Eq, Structural)]
pub struct SendTask {
    pub channel_id: u64,
    pub ping_id: u64,
    pub pace: Repeater,
}

impl SendTask {
    /// A sender that has not been started. With `limit` it ends after that
    /// many messages; without, it never ends by itself.
    pub fn new(channel_id: u64, ping_id: u64, limit: Option<u64>) -> (task: SendTask)
        ensures
            task == (SendTask { channel_id, ping_id, pace: fresh(limit) }),
    {
        SendTask { channel_id, ping_id, pace: Repeater::new(limit) }
    }

    /// Handles one signal. The result is the message to send now, if any.
    pub fn step(&mut self, signal: Signal) -> (request: Option<SendRequest>)
        ensures
            final(self).channel_id == old(self).channel_id,
            final(self).ping_id == old(self).ping_id,
            final(self).pace == after(old(self).pace, signal),
            request is Some <==> issues(old(self).pace, signal),
            request matches Some(r) ==> r.channel_id == old(self).channel_id && r.content@
                == mention_text(old(self).ping_id as nat),
    {
        if self.pace.step(signal) {
            Some(SendRequest { channel_id: self.channel_id, content: mention(self.ping_id) })
        } else {
            None
        }
    }

    /// Whether the sender has ended, by reaching its bound or by failing.
    pub fn is_over(&self) -> (over: bool)
        ensures
            over == (self.pace.progress == Progress::Done || self.pace.progress
                == Progress::Failed),
    {
        self.pace.is_over()
    }

    /// Whether the sender ended because a message was refused.
    pub fn has_failed(&self) -> (failed: bool)
        ensures
            failed == (self.pace.progress == Progress::Failed),
    {
        match self.pace.progress {
            Progress::Failed => true,
            _ => false,
        }
    }
}

} // verus!
