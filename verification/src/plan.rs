//! Splitting a bulk channel creation into concurrent batches.

use vstd::prelude::*;

verus! {

/// Hard ceiling on the number of channels one run may create.
pub const MAX_CHANNELS: usize = 500;

/// Number of creations that one concurrent batch performs.
pub const BATCH_SIZE: usize = 10;

/// Number of channels requested when the count is not configured.
pub const CHANNEL_AMOUNT: usize = 1000;

/// How a creation request is carried out: `batches` concurrent workers that
/// create `BATCH_SIZE` channels each, and `remainder` creations that run one
/// after another on the calling task once the batches have been dispatched.
#[derive(Clone, Copy, Debug, PartialEq, Eq, Structural)]
pub struct CreationPlan {
    pub batches: usize,
    pub remainder: usize,
}

/// Why no plan was made.
#[derive(Clone, Copy, Debug, PartialEq, Eq, Structural)]
pub enum PlanError {
    /// More channels were requested than `MAX_CHANNELS`.
    CeilingExceeded,
}

/// Number of batches for a request within the ceiling.
pub open spec fn spec_batches(requested: nat) -> nat {
    if requested > BATCH_SIZE {
        requested / (BATCH_SIZE as nat)
    } else {
        0
    }
}

/// Number of sequential creations for a request within the ceiling.
pub open spec fn spec_remainder(requested: nat) -> nat {
    if requested > BATCH_SIZE {
        requested % (BATCH_SIZE as nat)
    } else {
        requested
    }
}

impl CreationPlan {
    /// Total number of creation calls that carrying out the plan issues.
    pub open spec fn total(self) -> nat {
        (self.batches * BATCH_SIZE + self.remainder) as nat
    }

    /// Executable form of `total`.
    pub fn total_calls(&self) -> (n: usize)
        requires
            self.total() <= usize::MAX,
        ensures
            n == self.total(),
    {
        self.batches * BATCH_SIZE + self.remainder
    }
}

/// Plans the creation of `requested` channels.
///
/// A request above the ceiling is refused and nothing is planned. A request
/// above `BATCH_SIZE` is split into full batches and a remainder; a smaller
/// one runs entirely on the calling task.
pub fn plan_creation(requested: usize) -> (r: Result<CreationPlan, PlanError>)
    ensures
        requested > MAX_CHANNELS <==> r == Err::<CreationPlan, PlanError>(PlanError::CeilingExceeded),
        requested <= MAX_CHANNELS ==> r == Ok::<CreationPlan, PlanError>(
            (CreationPlan {
                batches: spec_batches(requested as nat) as usize,
                remainder: spec_remainder(requested as nat) as usize,
            }),
        ),
{
    if requested > MAX_CHANNELS {
        Err(PlanError::CeilingExceeded)
    } else if requested > BATCH_SIZE {
        Ok(CreationPlan { batches: requested / BATCH_SIZE, remainder: requested % BATCH_SIZE })
    } else {
        Ok(CreationPlan { batches: 0, remainder: requested })
    }
}

/// A plan issues exactly as many creation calls as were requested, and its
/// sequential part is shorter than one batch whenever batches are used.
pub proof fn lemma_plan_total(requested: nat)
    requires
        requested <= MAX_CHANNELS,
    ensures
        spec_batches(requested) * BATCH_SIZE + spec_remainder(requested) == requested,
        spec_batches(requested) > 0 ==> spec_remainder(requested) < BATCH_SIZE,
        spec_batches(requested) <= MAX_CHANNELS / BATCH_SIZE,
{
}

} // verus!
