//! Process-wide operation state: the single "in progress" flag that gives the
//! pipeline mutual exclusion, the shared byte counters polled for progress,
//! the current stage, and the cooperative cancellation flag.

use vstd::prelude::*;

verus! {

/// The stage a pipeline run is in. Terminal stages are `Complete`,
/// `Cancelled` and `Failed`.
#[derive(Debug, Clone, Copy, PartialEq, Eq, Structural)]
pub enum Stage {
    Idle,
    Preparing,
    Erasing,
    Writing,
    ConfiguringEncryption,
    ConfiguringBootloader,
    Verifying,
    Syncing,
    Complete,
    Cancelled,
    Failed,
}

impl Stage {
    /// The human-readable label shown to progress pollers.
    pub open spec fn spec_label(self) -> Seq<char> {
        match self {
            Stage::Idle => ""@,
            Stage::Preparing => "Preparing..."@,
            Stage::Erasing => "Secure erasing drive..."@,
            Stage::Writing => "Writing image to drive..."@,
            Stage::ConfiguringEncryption => "Setting up encryption..."@,
            Stage::ConfiguringBootloader => "Configuring bootloader..."@,
            Stage::Verifying => "Verifying write..."@,
            Stage::Syncing => "Syncing..."@,
            Stage::Complete => "Complete"@,
            Stage::Cancelled => "Cancelled"@,
            Stage::Failed => "Failed"@,
        }
    }

    pub fn label(&self) -> (r: &'static str)
        ensures
            r@ == self.spec_label(),
    {
        match self {
            Stage::Idle => "",
            Stage::Preparing => "Preparing...",
            Stage::Erasing => "Secure erasing drive...",
            Stage::Writing => "Writing image to drive...",
            Stage::ConfiguringEncryption => "Setting up encryption...",
            Stage::ConfiguringBootloader => "Configuring bootloader...",
            Stage::Verifying => "Verifying write...",
            Stage::Syncing => "Syncing...",
            Stage::Complete => "Complete",
            Stage::Cancelled => "Cancelled",
            Stage::Failed => "Failed",
        }
    }
}

/// Shared state of the one pipeline a process may run at a time. A single
/// writer (the active pipeline) mutates it; pollers read it concurrently
/// through the embedding layer's atomic primitives.
pub struct OperationState {
    /// At most one pipeline holds this true at a time.
    pub in_progress: bool,
    /// Bytes processed so far in the current tracked operation; monotonically
    /// increasing while a run is active.
    pub bytes_processed: u64,
    /// Fixed target byte count of the current tracked operation.
    pub total_bytes: u64,
    /// The stage the current run is in.
    pub stage: Stage,
    /// Set only by an external cancel request; polled by the pipeline before
    /// each stage and each I/O chunk.
    pub cancel_requested: bool,
}

/// Integer percent-complete: bytes/total x 100, capped at 100, or 0 when the
/// total is unknown.
pub open spec fn spec_percent(bytes: u64, total: u64) -> u64 {
    if total > 0 {
        if bytes * 100 / (total as int) > 100 {
            100
        } else {
            (bytes * 100 / (total as int)) as u64
        }
    } else {
        0
    }
}

impl OperationState {
    /// Fresh idle state.
    pub fn new() -> (r: OperationState)
        ensures
            !r.in_progress,
            r.bytes_processed == 0,
            r.total_bytes == 0,
            r.stage == Stage::Idle,
            !r.cancel_requested,
    {
        OperationState {
            in_progress: false,
            bytes_processed: 0,
            total_bytes: 0,
            stage: Stage::Idle,
            cancel_requested: false,
        }
    }

    /// Atomically claim the single pipeline slot. Fails, mutating nothing,
    /// if a run is already in progress; otherwise resets the counters, clears
    /// the cancellation flag and marks the run begun.
    pub fn try_begin(&mut self) -> (r: bool)
        ensures
            old(self).in_progress ==> !r && *final(self) == *old(self),
            !old(self).in_progress ==> r && final(self).in_progress
                && final(self).bytes_processed == 0 && final(self).total_bytes == 0
                && final(self).stage == Stage::Preparing && !final(self).cancel_requested,
    {
        if self.in_progress {
            false
        } else {
            self.in_progress = true;
            self.bytes_processed = 0;
            self.total_bytes = 0;
            self.stage = Stage::Preparing;
            self.cancel_requested = false;
            true
        }
    }

    /// External, idempotent cancel request; touches nothing but the flag.
    pub fn request_cancel(&mut self)
        ensures
            final(self).cancel_requested,
            final(self).in_progress == old(self).in_progress,
            final(self).bytes_processed == old(self).bytes_processed,
            final(self).total_bytes == old(self).total_bytes,
            final(self).stage == old(self).stage,
    {
        self.cancel_requested = true;
    }

    /// Move the run to a new stage.
    pub fn set_stage(&mut self, stage: Stage)
        ensures
            final(self).stage == stage,
            final(self).in_progress == old(self).in_progress,
            final(self).bytes_processed == old(self).bytes_processed,
            final(self).total_bytes == old(self).total_bytes,
            final(self).cancel_requested == old(self).cancel_requested,
    {
        self.stage = stage;
    }

    /// Start tracking a new operation of `total` bytes with a zeroed counter.
    pub fn begin_tracking(&mut self, total: u64)
        ensures
            final(self).bytes_processed == 0,
            final(self).total_bytes == total,
            final(self).in_progress == old(self).in_progress,
            final(self).stage == old(self).stage,
            final(self).cancel_requested == old(self).cancel_requested,
    {
        self.bytes_processed = 0;
        self.total_bytes = total;
    }

    /// Publish a new byte count; the counter never moves backwards.
    pub fn record_progress(&mut self, bytes: u64)
        requires
            old(self).bytes_processed <= bytes,
        ensures
            final(self).bytes_processed == bytes,
            final(self).in_progress == old(self).in_progress,
            final(self).total_bytes == old(self).total_bytes,
            final(self).stage == old(self).stage,
            final(self).cancel_requested == old(self).cancel_requested,
    {
        self.bytes_processed = bytes;
    }

    /// End the run: clear the "in progress" flag and record the terminal
    /// stage, leaving the counters as the run left them.
    pub fn end_run(&mut self, stage: Stage)
        ensures
            !final(self).in_progress,
            final(self).stage == stage,
            final(self).bytes_processed == old(self).bytes_processed,
            final(self).total_bytes == old(self).total_bytes,
            final(self).cancel_requested == old(self).cancel_requested,
    {
        self.in_progress = false;
        self.stage = stage;
    }

    /// Percent complete of the tracked operation.
    pub fn percent_complete(&self) -> (r: u64)
        ensures
            r == spec_percent(self.bytes_processed, self.total_bytes),
    {
        if self.total_bytes > 0 {
            let p: u128 = ((self.bytes_processed as u128) * 100) / (self.total_bytes as u128);
            if p > 100 {
                100
            } else {
                p as u64
            }
        } else {
            0
        }
    }
}

/// A snapshot of the shared state handed to progress pollers.
#[derive(Debug, Clone)]
pub struct ProgressSnapshot {
    pub stage: Stage,
    pub percent: u64,
    pub bytes_written: u64,
    pub total_bytes: u64,
}

/// Poll the current progress of the running (or last) operation.
pub fn get_burn_progress(state: &OperationState) -> (r: ProgressSnapshot)
    ensures
        r.stage == state.stage,
        r.percent == spec_percent(state.bytes_processed, state.total_bytes),
        r.bytes_written == state.bytes_processed,
        r.total_bytes == state.total_bytes,
{
    ProgressSnapshot {
        stage: state.stage,
        percent: state.percent_complete(),
        bytes_written: state.bytes_processed,
        total_bytes: state.total_bytes,
    }
}

} // verus!
