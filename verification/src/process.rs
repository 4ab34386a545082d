//! The processing loop that drains the shared buffer on a fixed tick.
//!
//! Each tick drains every buffered sample, pads or truncates the block to
//! the resampler's next required input-frame count, and hands the block
//! on for resampling and PCM16 encoding. After the capturing flag is
//! observed false, exactly one more drain pass runs for residual samples,
//! then the loop ends — no audio in flight is lost at stop.

use vstd::prelude::*;
use crate::wav::TARGET_SAMPLE_RATE;

verus! {

/// Milliseconds of audio drained per processing tick.
pub const CHUNK_DURATION_MS: u64 = 100;

/// Input frames handed to the resampler per tick at a given device rate:
/// one tick's worth of samples.
pub fn chunk_frames(sample_rate: u32) -> (frames: usize)
    ensures
        frames == sample_rate * CHUNK_DURATION_MS / 1000,
{
    ((sample_rate as u64) * CHUNK_DURATION_MS / 1000) as usize
}

/// Whether the device rate differs from the canonical target rate, so a
/// resampling stage is needed.
pub fn needs_resample(device_rate: u32) -> (r: bool)
    ensures
        r == (device_rate != TARGET_SAMPLE_RATE),
{
    device_rate != TARGET_SAMPLE_RATE
}

/// A drained block padded (with silence) or truncated to exactly the
/// frame count the resampler requires next.
pub open spec fn spec_pad_block(s: Seq<i32>, frames: int) -> Seq<i32> {
    if s.len() >= frames {
        s.subrange(0, frames)
    } else {
        s + Seq::new((frames - s.len()) as nat, |i: int| 0i32)
    }
}

/// Pad or truncate a drained block to the resampler's required input
/// length, zero-filling the tail.
pub fn pad_block(block: Vec<i32>, frames: usize) -> (r: Vec<i32>)
    ensures
        r@ == spec_pad_block(block@, frames as int),
        r@.len() == frames,
{
    let ghost orig = block@;
    let mut block = block;
    block.resize(frames, 0i32);
    proof {
        assert(block@ =~= spec_pad_block(orig, frames as int));
    }
    block
}

/// The drain loop's control state: `Running` while passes continue,
/// `Finished` once the final flush pass has run.
#[derive(Debug, Clone, Copy, PartialEq, Eq, Structural)]
pub enum DrainPhase {
    Running,
    Finished,
}

/// The phase after one pass that observed the capturing flag: the pass
/// that observes it false is the single final flush for residual
/// samples, after which the loop ends.
pub open spec fn spec_drain_step(phase: DrainPhase, capturing: bool) -> DrainPhase {
    match phase {
        DrainPhase::Running => if capturing {
            DrainPhase::Running
        } else {
            DrainPhase::Finished
        },
        DrainPhase::Finished => DrainPhase::Finished,
    }
}

/// The control state of one processing loop.
pub struct ProcessingLoop {
    /// The current drain phase.
    pub phase: DrainPhase,
}

impl ProcessingLoop {
    /// A loop that is still capturing.
    pub fn new() -> (p: Self)
        ensures
            p.phase == DrainPhase::Running,
    {
        ProcessingLoop { phase: DrainPhase::Running }
    }

    /// Account for one drain/resample/encode/emit pass and the capturing
    /// flag it observed afterwards: while the flag holds the loop keeps
    /// running; the pass that observes it false was the single residual
    /// flush — capture callbacks have already stopped — and the loop
    /// finishes. Returns whether to keep looping.
    pub fn tick(&mut self, capturing: bool) -> (go_on: bool)
        requires
            old(self).phase == DrainPhase::Running,
        ensures
            final(self).phase == spec_drain_step(old(self).phase, capturing),
            go_on == capturing,
            go_on == (final(self).phase == DrainPhase::Running),
    {
        if !capturing {
            self.phase = DrainPhase::Finished;
        }
        capturing
    }
}

/// How many drain passes a loop performs when the capturing flag reads
/// `flags[i]` on its `i`-th tick: it keeps draining while the flag holds
/// and performs exactly one more pass after first observing it false.
pub open spec fn spec_drain_passes(flags: Seq<bool>) -> int
    decreases flags.len(),
{
    if flags.len() == 0 {
        0
    } else if flags[0] {
        1 + spec_drain_passes(flags.drop_first())
    } else {
        1
    }
}

/// The phase after the loop's steps observe `flags` in order.
pub open spec fn spec_run_phases(phase: DrainPhase, flags: Seq<bool>) -> DrainPhase
    decreases flags.len(),
{
    if flags.len() == 0 {
        phase
    } else {
        spec_run_phases(spec_drain_step(phase, flags[0]), flags.drop_first())
    }
}

/// Exactly one residual pass: if the capturing flag first reads false on
/// tick `k`, the loop performs exactly `k + 1` drain passes — it is
/// still running after the `k` passes that saw the flag hold, the single
/// pass that observes the stop signal flushes the residual samples, and
/// the loop is finished immediately after it.
pub proof fn lemma_single_final_pass(flags: Seq<bool>, k: int)
    requires
        0 <= k < flags.len(),
        !flags[k],
        forall|j: int| 0 <= j < k ==> flags[j],
    ensures
        spec_drain_passes(flags) == k + 1,
        spec_run_phases(DrainPhase::Running, flags.take(k)) == DrainPhase::Running,
        spec_run_phases(DrainPhase::Running, flags.take(k + 1)) == DrainPhase::Finished,
    decreases k,
{
    reveal_with_fuel(spec_run_phases, 3);
    if k == 0 {
        assert(flags.take(0) =~= Seq::<bool>::empty());
        assert(flags.take(1) =~= seq![flags[0]]);
        assert(flags.take(1).drop_first() =~= Seq::<bool>::empty());
        assert(spec_run_phases(DrainPhase::Running, flags.take(1)) == DrainPhase::Finished);
    } else {
        assert(flags[0]);
        lemma_single_final_pass(flags.drop_first(), k - 1);
        assert(spec_drain_step(DrainPhase::Running, flags[0]) == DrainPhase::Running);
        assert(flags.take(k)[0] == flags[0]);
        assert(flags.take(k).drop_first() =~= flags.drop_first().take(k - 1));
        assert(spec_run_phases(DrainPhase::Running, flags.take(k)) == spec_run_phases(
            DrainPhase::Running,
            flags.drop_first().take(k - 1),
        ));
        assert(flags.take(k + 1)[0] == flags[0]);
        assert(flags.take(k + 1).drop_first() =~= flags.drop_first().take(k));
        assert(spec_run_phases(DrainPhase::Running, flags.take(k + 1)) == spec_run_phases(
            DrainPhase::Running,
            flags.drop_first().take(k),
        ));
        assert(spec_run_phases(DrainPhase::Running, flags.take(k + 1)) == DrainPhase::Finished);
    }
}

} // verus!
