//! The real-time-safe sample pipeline run for each hardware callback:
//! downmix to mono, peak metering, and bounded buffering.
//!
//! The callback must never block or queue unboundedly, so the shared
//! buffer is size-capped: samples that do not fit are dropped, never
//! queued.

use vstd::prelude::*;

verus! {

/// Cap of the shared sample buffer: one minute of audio at the target rate.
pub const MAX_BUFFER_SAMPLES: usize = 1440000;

/// Most channels a device frame may carry; keeps frame sums in machine
/// range.
pub const MAX_CHANNELS: usize = 65536;

/// |s|.
pub open spec fn spec_abs(s: int) -> int {
    if s < 0 {
        -s
    } else {
        s
    }
}

/// Division truncating toward zero, as machine division does.
pub open spec fn spec_div_trunc(a: int, b: int) -> int {
    if a >= 0 {
        a / b
    } else {
        -((-a) / b)
    }
}

/// Sum of a block of samples.
pub open spec fn spec_sum(s: Seq<i32>) -> int
    decreases s.len(),
{
    if s.len() == 0 {
        0
    } else {
        s[0] + spec_sum(s.drop_first())
    }
}

/// Number of frames in an interleaved block: a trailing partial frame
/// counts as one frame.
pub open spec fn spec_frame_count(len: int, channels: int) -> int {
    (len + channels - 1) / channels
}

/// One downmixed frame: the samples of frame `i`, averaged over the full
/// channel count (a trailing partial frame is averaged over the declared
/// channel count as well), truncating toward zero.
pub open spec fn spec_downmix_frame(s: Seq<i32>, channels: int, i: int) -> int {
    let lo = i * channels;
    let hi = if (i + 1) * channels <= s.len() {
        (i + 1) * channels
    } else {
        s.len() as int
    };
    spec_div_trunc(spec_sum(s.subrange(lo, hi)), channels)
}

/// Downmix an interleaved block to mono: one averaged sample per frame.
pub open spec fn spec_downmix(s: Seq<i32>, channels: int) -> Seq<i32> {
    Seq::new(
        spec_frame_count(s.len() as int, channels) as nat,
        |i: int| spec_downmix_frame(s, channels, i) as i32,
    )
}

/// Peak level of a block: the largest absolute sample value, 0 when empty.
pub open spec fn spec_peak(s: Seq<i32>) -> int
    decreases s.len(),
{
    if s.len() == 0 {
        0
    } else {
        let rest = spec_peak(s.drop_first());
        if spec_abs(s[0] as int) >= rest {
            spec_abs(s[0] as int)
        } else {
            rest
        }
    }
}

proof fn lemma_sum_bounds(s: Seq<i32>)
    ensures
        s.len() * (i32::MIN as int) <= spec_sum(s) <= s.len() * (i32::MAX as int),
    decreases s.len(),
{
    if s.len() == 0 {
    } else {
        lemma_sum_bounds(s.drop_first());
        assert(s.len() * (i32::MIN as int) == (s.len() - 1) * (i32::MIN as int) + (
        i32::MIN as int)) by (nonlinear_arith);
        assert(s.len() * (i32::MAX as int) == (s.len() - 1) * (i32::MAX as int) + (
        i32::MAX as int)) by (nonlinear_arith);
    }
}

proof fn lemma_sum_push(s: Seq<i32>, x: i32)
    ensures
        spec_sum(s.push(x)) == spec_sum(s) + x,
    decreases s.len(),
{
    if s.len() == 0 {
        assert(s.push(x)[0] == x);
        assert(s.push(x).drop_first() =~= Seq::<i32>::empty());
        assert(spec_sum(s.push(x)) == x + spec_sum(Seq::<i32>::empty()));
    } else {
        assert(s.push(x)[0] == s[0]);
        assert(s.push(x).drop_first() =~= s.drop_first().push(x));
        lemma_sum_push(s.drop_first(), x);
        assert(spec_sum(s.push(x)) == s[0] + spec_sum(s.push(x).drop_first()));
        assert(spec_sum(s.push(x).drop_first()) == spec_sum(s.drop_first().push(x)));
        assert(spec_sum(s.push(x)) == s[0] + spec_sum(s.drop_first()) + x);
    }
}

/// The averaged frame value lies between the extreme sample values, so it
/// fits a sample again.
proof fn lemma_frame_value_fits(s: Seq<i32>, channels: int, i: int)
    requires
        1 <= channels,
        0 <= i < spec_frame_count(s.len() as int, channels),
    ensures
        i32::MIN as int <= spec_downmix_frame(s, channels, i) <= i32::MAX as int,
{
    let lo = i * channels;
    let hi = if (i + 1) * channels <= s.len() {
        (i + 1) * channels
    } else {
        s.len() as int
    };
    assert(0 <= lo && lo <= hi && hi <= s.len()) by (nonlinear_arith)
        requires
            1 <= channels,
            0 <= i < spec_frame_count(s.len() as int, channels),
            lo == i * channels,
            hi == (if (i + 1) * channels <= s.len() {
                (i + 1) * channels
            } else {
                s.len() as int
            }),
    ;
    let f = s.subrange(lo, hi);
    lemma_sum_bounds(f);
    let n = f.len() as int;
    assert(n <= channels) by (nonlinear_arith)
        requires
            n == hi - lo,
            lo == i * channels,
            hi <= (i + 1) * channels,
    ;
    let sum = spec_sum(f);
    if sum >= 0 {
        assert(sum / channels <= i32::MAX as int) by (nonlinear_arith)
            requires
                0 <= sum <= n * (i32::MAX as int),
                0 <= n <= channels,
                1 <= channels,
        ;
    } else {
        assert((-sum) / channels <= -(i32::MIN as int)) by (nonlinear_arith)
            requires
                0 < -sum <= n * (-(i32::MIN as int)),
                0 <= n <= channels,
                1 <= channels,
        ;
    }
}

/// Downmix an interleaved block to mono by averaging each frame over the
/// channel count, truncating toward zero; mono input passes through
/// unchanged.
pub fn downmix(samples: &Vec<i32>, channels: usize) -> (mono: Vec<i32>)
    requires
        1 <= channels <= MAX_CHANNELS,
    ensures
        mono@ == spec_downmix(samples@, channels as int),
{
    let ghost gmono = spec_downmix(samples@, channels as int);
    let ghost n_frames = spec_frame_count(samples@.len() as int, channels as int);
    let mut out: Vec<i32> = Vec::new();
    let mut pos: usize = 0;
    let mut frame: usize = 0;
    proof {
        if samples@.len() == 0 {
            vstd::arithmetic::div_mod::lemma_fundamental_div_mod_converse(
                channels as int - 1,
                channels as int,
                0,
                channels as int - 1,
            );
        }
    }
    while pos < samples.len()
        invariant
            1 <= channels <= MAX_CHANNELS,
            pos <= samples@.len(),
            pos < samples@.len() ==> pos == frame * channels,
            pos >= samples@.len() ==> frame == n_frames,
            n_frames == spec_frame_count(samples@.len() as int, channels as int),
            gmono == spec_downmix(samples@, channels as int),
            out@.len() == frame,
            forall|j: int| 0 <= j < frame ==> out@[j] == gmono[j],
        decreases samples@.len() - pos,
    {
        proof {
            assert(frame * channels < samples@.len() ==> frame < spec_frame_count(
                samples@.len() as int,
                channels as int,
            )) by (nonlinear_arith)
                requires
                    1 <= channels,
            ;
        }
        let end: usize = if channels <= samples.len() - pos {
            pos + channels
        } else {
            samples.len()
        };
        let mut sum: i64 = 0;
        let mut j: usize = pos;
        proof {
            assert(samples@.subrange(pos as int, pos as int) =~= Seq::<i32>::empty());
        }
        while j < end
            invariant
                pos <= j <= end <= samples@.len(),
                end - pos <= channels,
                channels <= MAX_CHANNELS,
                sum == spec_sum(samples@.subrange(pos as int, j as int)),
                (j - pos) * (i32::MIN as int) <= sum <= (j - pos) * (i32::MAX as int),
            decreases end - j,
        {
            proof {
                assert(samples@.subrange(pos as int, j + 1) =~= samples@.subrange(
                    pos as int,
                    j as int,
                ).push(samples@[j as int]));
                lemma_sum_push(samples@.subrange(pos as int, j as int), samples@[j as int]);
                assert((j + 1 - pos) * (i32::MIN as int) == (j - pos) * (i32::MIN as int) + (
                i32::MIN as int)) by (nonlinear_arith);
                assert((j + 1 - pos) * (i32::MAX as int) == (j - pos) * (i32::MAX as int) + (
                i32::MAX as int)) by (nonlinear_arith);
            }
            sum = sum + samples[j] as i64;
            j = j + 1;
        }
        let avg: i64 = if sum >= 0 {
            sum / channels as i64
        } else {
            -((-sum) / channels as i64)
        };
        proof {
            lemma_frame_value_fits(samples@, channels as int, frame as int);
            assert((frame + 1) * channels == pos + channels) by (nonlinear_arith)
                requires
                    pos == frame * channels,
            ;
            assert(avg == spec_downmix_frame(samples@, channels as int, frame as int));
            assert(frame <= pos) by (nonlinear_arith)
                requires
                    1 <= channels,
                    pos == frame * channels,
                    0 <= frame,
            ;
        }
        out.push(avg as i32);
        let ghost old_pos = pos as int;
        pos = end;
        frame = frame + 1;
        proof {
            let len = samples@.len() as int;
            let ch = channels as int;
            if pos as int == old_pos + ch {
                // A full frame was consumed; the frame origin advances by
                // one channel stride.
                assert(frame * channels == (frame - 1) * channels + channels)
                    by (nonlinear_arith);
                if pos >= samples@.len() {
                    // The block ended exactly on a frame boundary.
                    vstd::arithmetic::div_mod::lemma_fundamental_div_mod_converse(
                        len + ch - 1,
                        ch,
                        frame as int,
                        ch - 1,
                    );
                }
            } else {
                // A trailing partial frame was consumed; the loop is done.
                assert(frame * channels == (frame - 1) * channels + channels)
                    by (nonlinear_arith);
                vstd::arithmetic::div_mod::lemma_fundamental_div_mod_converse(
                    len + ch - 1,
                    ch,
                    frame as int,
                    len - 1 - old_pos,
                );
            }
        }
    }
    proof {
        assert(out@ =~= gmono);
    }
    out
}

/// Peak absolute level of a block, for metering; sent best-effort, never
/// blocking the audio thread.
pub fn peak_level(samples: &Vec<i32>) -> (level: u32)
    ensures
        level as int == spec_peak(samples@),
{
    let mut level: u32 = 0;
    let mut i: usize = samples.len();
    while i > 0
        invariant
            i <= samples@.len(),
            level as int == spec_peak(samples@.skip(i as int)),
        decreases i,
    {
        i = i - 1;
        let s = samples[i];
        let a: u32 = if s < 0 {
            (-(s as i64)) as u32
        } else {
            s as u32
        };
        proof {
            assert(samples@.skip(i as int).drop_first() =~= samples@.skip(i + 1));
        }
        if a > level {
            level = a;
        }
    }
    proof {
        assert(samples@.skip(0) =~= samples@);
    }
    level
}

/// The bounded sample buffer shared between the audio callback and the
/// processing thread. Its length never exceeds its cap; samples that do
/// not fit are silently discarded.
pub struct SampleBuffer {
    data: Vec<i32>,
    cap: usize,
}

impl SampleBuffer {
    /// The buffered samples, oldest first.
    pub closed spec fn view(&self) -> Seq<i32> {
        self.data@
    }

    /// The fixed cap.
    pub closed spec fn spec_cap(&self) -> int {
        self.cap as int
    }

    /// The buffer never holds more than its cap.
    pub closed spec fn wf(&self) -> bool {
        self.data@.len() <= self.cap
    }

    /// How many of `n` incoming samples fit.
    pub open spec fn spec_fit(&self, n: int) -> int {
        if n <= self.spec_cap() - self.view().len() {
            n
        } else {
            self.spec_cap() - self.view().len()
        }
    }

    /// An empty buffer with the given cap.
    pub fn new(cap: usize) -> (buf: Self)
        ensures
            buf.wf(),
            buf.view() == Seq::<i32>::empty(),
            buf.spec_cap() == cap,
    {
        SampleBuffer { data: Vec::new(), cap }
    }

    /// Samples currently buffered.
    pub fn len(&self) -> (n: usize)
        ensures
            n == self.view().len(),
    {
        self.data.len()
    }

    /// Append as many incoming samples as fit under the cap, in order,
    /// silently discarding the rest; never blocks, never reallocates past
    /// the cap.
    pub fn append_limited(&mut self, samples: &Vec<i32>)
        requires
            old(self).wf(),
        ensures
            final(self).wf(),
            final(self).spec_cap() == old(self).spec_cap(),
            final(self).view() == old(self).view() + samples@.take(
                old(self).spec_fit(samples@.len() as int),
            ),
    {
        let available: usize = self.cap - self.data.len();
        let n: usize = if samples.len() <= available {
            samples.len()
        } else {
            available
        };
        let mut i: usize = 0;
        while i < n
            invariant
                i <= n <= samples@.len(),
                self.data@.len() == old(self).view().len() + i,
                n <= old(self).spec_cap() - old(self).view().len(),
                self.data@ == old(self).view() + samples@.take(i as int),
                self.cap == old(self).cap,
            decreases n - i,
        {
            self.data.push(samples[i]);
            proof {
                assert(samples@.take(i + 1) =~= samples@.take(i as int).push(samples@[i as int]));
                assert(self.data@ =~= old(self).view() + samples@.take(i + 1));
            }
            i = i + 1;
        }
    }

    /// Take every buffered sample, leaving the buffer empty.
    pub fn drain_all(&mut self) -> (samples: Vec<i32>)
        ensures
            samples@ == old(self).view(),
            final(self).view() == Seq::<i32>::empty(),
            final(self).spec_cap() == old(self).spec_cap(),
            final(self).wf(),
    {
        let mut taken: Vec<i32> = Vec::new();
        core::mem::swap(&mut taken, &mut self.data);
        taken
    }

    /// Recovery after a panic poisoned the guarding lock: clear the
    /// possibly corrupted contents so capture can continue.
    pub fn recover(&mut self)
        ensures
            final(self).view() == Seq::<i32>::empty(),
            final(self).spec_cap() == old(self).spec_cap(),
            final(self).wf(),
    {
        self.data.clear();
    }
}

/// One audio-callback step: downmix the interleaved block to mono, meter
/// its peak level, and append what fits into the bounded buffer.
pub fn process_block(samples: &Vec<i32>, channels: usize, buffer: &mut SampleBuffer) -> (level: u32)
    requires
        1 <= channels <= MAX_CHANNELS,
        old(buffer).wf(),
    ensures
        level as int == spec_peak(spec_downmix(samples@, channels as int)),
        final(buffer).wf(),
        final(buffer).spec_cap() == old(buffer).spec_cap(),
        final(buffer).view() == old(buffer).view() + spec_downmix(
            samples@,
            channels as int,
        ).take(old(buffer).spec_fit(spec_downmix(samples@, channels as int).len() as int)),
{
    let mono = downmix(samples, channels);
    let level = peak_level(&mono);
    buffer.append_limited(&mono);
    level
}

} // verus!
