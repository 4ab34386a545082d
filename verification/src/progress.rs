//! Progress reporting surfaced to the orchestrating caller while a file
//! is prepared, split, downloaded and transcribed. Within one run the
//! reported percentage never decreases.

use vstd::prelude::*;

verus! {

/// The stage a long-running transcription job is in.
#[derive(Debug, Clone, Copy, PartialEq, Eq, Structural)]
pub enum ProgressStage {
    Preparing,
    Extracting,
    Splitting,
    Transcribing,
    Downloading,
    Processing,
    Complete,
}

/// One progress report handed to the caller.
#[derive(Debug, Clone)]
pub struct ProgressReport {
    /// The current stage.
    pub stage: ProgressStage,
    /// Completion in percent, 0 to 100.
    pub percent: u8,
    /// A short human-readable line.
    pub message: String,
}

/// Tracks progress of one run, keeping the reported percent monotone.
pub struct ProgressTracker {
    percent: u8,
}

impl ProgressTracker {
    /// The highest percent reported so far.
    pub closed spec fn spec_percent(&self) -> int {
        self.percent as int
    }

    /// A fresh run at zero percent.
    pub fn new() -> (t: Self)
        ensures
            t.spec_percent() == 0,
    {
        ProgressTracker { percent: 0 }
    }

    /// Report progress: the percent is clamped to 100 and never moves
    /// backwards within the run, whatever the stages report.
    pub fn report(&mut self, stage: ProgressStage, percent: u8, message: String) -> (r:
        ProgressReport)
        ensures
            final(self).spec_percent() == r.percent,
            r.percent as int == spec_next_percent(old(self).spec_percent(), percent as int),
            r.percent <= 100,
            old(self).spec_percent() <= r.percent || r.percent == 100,
            r.stage == stage,
            r.message == message,
    {
        let capped: u8 = if percent > 100 {
            100
        } else {
            percent
        };
        let next: u8 = if capped > self.percent {
            capped
        } else {
            self.percent
        };
        self.percent = if next > 100 {
            100
        } else {
            next
        };
        ProgressReport { stage, percent: self.percent, message }
    }
}

/// The percent after one report: the reported value capped at 100, never
/// below what was already reported, and never above 100.
pub open spec fn spec_next_percent(old_percent: int, reported: int) -> int {
    let capped = if reported > 100 {
        100int
    } else {
        reported
    };
    let next = if capped > old_percent {
        capped
    } else {
        old_percent
    };
    if next > 100 {
        100
    } else {
        next
    }
}

} // verus!
