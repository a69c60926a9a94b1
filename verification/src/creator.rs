//! The worker that creates a run of randomly named channels.

use crate::naming::{generate_name, valid_name};
use crate::plan::BATCH_SIZE;
use crate::repeat::{after, fresh, issues, Progress, Repeater, Signal};
use vstd::prelude::*;

verus! {

/// One text channel to create in a server.
#[derive(Debug)]
pub struct CreateRequest {
    pub guild_id: u64,
    pub name: String,
}

/// A worker that creates `count` channels in `guild_id`, one after another,
/// each under a fresh random name of `name_len` characters.
#[derive(Clone, Copy, Debug, PartialEq, Eq, Structural)]
pub struct CreationWorker {
    pub guild_id: u64,
    pub name_len: usize,
    pub pace: Repeater,
}

impl CreationWorker {
    /// A worker that has not been started.
    pub fn new(guild_id: u64, count: u64, name_len: usize) -> (worker: CreationWorker)
        ensures
            worker == (CreationWorker { guild_id, name_len, pace: fresh(Some(count)) }),
    {
        CreationWorker { guild_id, name_len, pace: Repeater::new(Some(count)) }
    }

    /// The worker of one concurrent batch: it creates `BATCH_SIZE` channels.
    pub fn for_batch(guild_id: u64, name_len: usize) -> (worker: CreationWorker)
        ensures
            worker == (CreationWorker {
                guild_id,
                name_len,
                pace: fresh(Some(BATCH_SIZE as u64)),
            }),
    {
        CreationWorker::new(guild_id, BATCH_SIZE as u64, name_len)
    }

    /// The worker of the creations left over after the batches: it creates
    /// `remainder` channels on the calling task.
    pub fn for_remainder(guild_id: u64, remainder: usize, name_len: usize) -> (worker:
        CreationWorker)
        ensures
            worker == (CreationWorker {
                guild_id,
                name_len,
                pace: fresh(Some(remainder as u64)),
            }),
    {
        CreationWorker::new(guild_id, remainder as u64, name_len)
    }

    /// Handles one signal. The result is the channel to create now, if any;
    /// its name is drawn at random.
    pub fn step(&mut self, signal: Signal) -> (request: Option<CreateRequest>)
        ensures
            final(self).guild_id == old(self).guild_id,
            final(self).name_len == old(self).name_len,
            final(self).pace == after(old(self).pace, signal),
            request is Some <==> issues(old(self).pace, signal),
            request matches Some(r) ==> r.guild_id == old(self).guild_id && valid_name(
                r.name@,
                old(self).name_len as nat,
            ),
    {
        if self.pace.step(signal) {
            Some(CreateRequest { guild_id: self.guild_id, name: generate_name(self.name_len) })
        } else {
            None
        }
    }

    /// Whether the worker has ended, by creating all its channels or by
    /// failing.
    pub fn is_over(&self) -> (over: bool)
        ensures
            over == (self.pace.progress == Progress::Done || self.pace.progress
                == Progress::Failed),
    {
        self.pace.is_over()
    }

    /// Whether the worker ended because a creation was refused.
    pub fn has_failed(&self) -> (failed: bool)
        ensures
            failed == (self.pace.progress == Progress::Failed),
    {
        match self.pace.progress {
            Progress::Failed => true,
            _ => false,
        }
    }
}

} // verus!
