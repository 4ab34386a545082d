//! Support for the external local-model transcriber, which consumes
//! mono PCM: the transcribe-in-progress guard that blocks model deletion,
//! the downloaded-model check, and the silence padding appended so the
//! decoder can finalize trailing tokens.

use vstd::prelude::*;

verus! {

/// The model is stored as this many files (encoder, decoder, vocabulary).
pub const MODEL_FILE_COUNT: usize = 3;

/// Samples of silence appended before local transcription: half a second
/// at the canonical rate, so an abrupt ending does not cut trailing
/// words.
pub const SILENCE_PAD_SAMPLES: usize = 12000;

/// Guard flag preventing model deletion during an active transcription.
pub struct TranscribingFlag {
    active: bool,
}

impl TranscribingFlag {
    /// Whether a transcription is underway.
    pub closed spec fn spec_active(&self) -> bool {
        self.active
    }

    /// A fresh, inactive guard.
    pub fn new() -> (f: Self)
        ensures
            !f.spec_active(),
    {
        TranscribingFlag { active: false }
    }

    /// Mark a transcription as started or finished.
    pub fn set_transcribing(&mut self, active: bool)
        ensures
            final(self).spec_active() == active,
    {
        self.active = active;
    }

    /// Whether a transcription is underway, so the model must not be
    /// deleted.
    pub fn is_transcribing(&self) -> (r: bool)
        ensures
            r == self.spec_active(),
    {
        self.active
    }
}

/// Whether the model is fully downloaded: every one of its files is
/// present with a non-zero size. `file_sizes` holds one entry per model
/// file, zero for a missing file.
pub fn is_model_downloaded(file_sizes: &Vec<u64>) -> (r: bool)
    ensures
        r == (file_sizes@.len() == MODEL_FILE_COUNT && forall|i: int|
            0 <= i < file_sizes@.len() ==> file_sizes@[i] > 0),
{
    if file_sizes.len() != MODEL_FILE_COUNT {
        return false;
    }
    let mut i: usize = 0;
    while i < file_sizes.len()
        invariant
            i <= file_sizes@.len(),
            forall|j: int| 0 <= j < i ==> file_sizes@[j] > 0,
        decreases file_sizes@.len() - i,
    {
        if file_sizes[i] == 0 {
            return false;
        }
        i = i + 1;
    }
    true
}

/// Append the silence padding to a sample block before local
/// transcription.
pub fn pad_silence(samples: Vec<i32>) -> (r: Vec<i32>)
    ensures
        r@ == samples@ + Seq::new(SILENCE_PAD_SAMPLES as nat, |i: int| 0i32),
{
    let ghost orig = samples@;
    let mut samples = samples;
    let mut i: usize = 0;
    while i < SILENCE_PAD_SAMPLES
        invariant
            i <= SILENCE_PAD_SAMPLES,
            samples@ == orig + Seq::new(i as nat, |k: int| 0i32),
        decreases SILENCE_PAD_SAMPLES - i,
    {
        samples.push(0);
        proof {
            assert(samples@ =~= orig + Seq::new((i + 1) as nat, |k: int| 0i32));
        }
        i = i + 1;
    }
    samples
}

} // verus!
