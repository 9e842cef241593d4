//! The buffer-sizing protocol of the Windows backend: the adapter-list call
//! is retried with a doubled buffer while it reports the buffer too small,
//! under an explicit cap on the number of growth attempts.

use vstd::prelude::*;

verus! {

/// The buffer size the first call is attempted with, in bytes.
pub const INITIAL_BUFFER_SIZE: u64 = 15000;

/// How many times the buffer may be grown before the protocol gives up.
pub const MAX_GROW_ATTEMPTS: u32 = 16;

/// What the adapter-enumeration call reported: success, a buffer too small
/// for the adapter list, or any other failure, which is fatal.
#[derive(Debug, Clone, Copy, PartialEq, Eq, Structural)]
pub enum AdapterCallOutcome {
    Success,
    BufferTooSmall,
    OtherFailure { code: u32 },
}

/// Where the protocol stands: a buffer of the current size is to be tried
/// (`Sized` before the first call, `Retrying` after a growth), the buffer
/// was filled (`Done`), or the protocol gave up (`Failed`).
#[derive(Debug, Clone, Copy, PartialEq, Eq, Structural)]
pub enum SizingPhase {
    Sized,
    Retrying,
    Done,
    Failed,
}

/// The buffer size after a number of doublings of the initial size.
pub open spec fn spec_grown_size(attempts: u32) -> int
    decreases attempts,
{
    if attempts == 0 {
        INITIAL_BUFFER_SIZE as int
    } else {
        2 * spec_grown_size((attempts - 1) as u32)
    }
}

/// The size never shrinks below the initial size.
pub proof fn lemma_grown_size_pos(attempts: u32)
    ensures
        spec_grown_size(attempts) >= INITIAL_BUFFER_SIZE,
    decreases attempts,
{
    if attempts > 0 {
        lemma_grown_size_pos((attempts - 1) as u32);
    }
}

/// More doublings give a size at least as large.
pub proof fn lemma_grown_size_monotone(a: u32, b: u32)
    requires
        a <= b,
    ensures
        spec_grown_size(a) <= spec_grown_size(b),
    decreases b,
{
    if a < b {
        lemma_grown_size_monotone(a, (b - 1) as u32);
        lemma_grown_size_pos((b - 1) as u32);
    }
}

/// The size after the last allowed growth attempt.
pub proof fn lemma_grown_size_max()
    ensures
        spec_grown_size(MAX_GROW_ATTEMPTS) == 983040000,
{
    reveal_with_fuel(spec_grown_size, 17);
}

/// The state of one run of the buffer-sizing protocol.
#[derive(Debug, Clone, Copy, PartialEq, Eq, Structural)]
pub struct BufferSizing {
    /// The size of the buffer the next (or successful) call uses, in bytes.
    pub size: u64,
    /// How many growth attempts have been made.
    pub attempts: u32,
    /// Where the protocol stands.
    pub phase: SizingPhase,
}

impl BufferSizing {
    /// The state is consistent: the size is the initial size doubled once
    /// per growth attempt, and the attempts stay under the cap.
    pub open spec fn wf(self) -> bool {
        &&& self.attempts <= MAX_GROW_ATTEMPTS
        &&& self.size == spec_grown_size(self.attempts)
    }

    /// A call is still to be made with the current buffer size.
    pub open spec fn active(self) -> bool {
        self.phase is Sized || self.phase is Retrying
    }

    /// The protocol at its start: the initial buffer size, no growth yet.
    pub fn new() -> (r: BufferSizing)
        ensures
            r.wf(),
            r.phase is Sized,
            r.size == INITIAL_BUFFER_SIZE,
            r.attempts == 0,
    {
        BufferSizing { size: INITIAL_BUFFER_SIZE, attempts: 0, phase: SizingPhase::Sized }
    }

    /// One transition of the protocol, on what the call with the current
    /// buffer reported: success retains the buffer and finishes; a too-small
    /// buffer doubles the size and retries, up to the cap on attempts, after
    /// which the protocol gives up; any other outcome is fatal.
    pub fn step(&mut self, outcome: AdapterCallOutcome)
        requires
            old(self).wf(),
            old(self).active(),
        ensures
            final(self).wf(),
            (match outcome {
                AdapterCallOutcome::Success => {
                    &&& final(self).phase is Done
                    &&& final(self).size == old(self).size
                    &&& final(self).attempts == old(self).attempts
                },
                AdapterCallOutcome::BufferTooSmall => {
                    if old(self).attempts < MAX_GROW_ATTEMPTS {
                        &&& final(self).phase is Retrying
                        &&& final(self).size == 2 * old(self).size
                        &&& final(self).attempts == old(self).attempts + 1
                    } else {
                        &&& final(self).phase is Failed
                        &&& final(self).size == old(self).size
                    }
                },
                AdapterCallOutcome::OtherFailure { .. } => {
                    &&& final(self).phase is Failed
                    &&& final(self).size == old(self).size
                },
            }),
    {
        match outcome {
            AdapterCallOutcome::Success => {
                self.phase = SizingPhase::Done;
            },
            AdapterCallOutcome::BufferTooSmall => {
                if self.attempts < MAX_GROW_ATTEMPTS {
                    proof {
                        lemma_grown_size_monotone((self.attempts + 1) as u32, MAX_GROW_ATTEMPTS);
                        lemma_grown_size_max();
                        lemma_grown_size_pos(self.attempts);
                    }
                    self.size = self.size * 2;
                    self.attempts = self.attempts + 1;
                    self.phase = SizingPhase::Retrying;
                } else {
                    self.phase = SizingPhase::Failed;
                }
            },
            AdapterCallOutcome::OtherFailure { .. } => {
                self.phase = SizingPhase::Failed;
            },
        }
    }
}

} // verus!
