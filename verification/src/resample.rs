//! Bringing a waveform to one channel at the rate the inference engine wants.
//!
//! The channels of a frame are averaged, and the frames are interpolated
//! linearly between neighbours. This module does the part that is integer
//! arithmetic: how many frames come out, and for each of them which frames of
//! the source it lies between and how far along. The caller does the
//! floating-point sums.

use vstd::prelude::*;
use crate::error::{AudioError, Failure};
use crate::waveform::layout;

verus! {

/// The rate the inference engine wants, in frames per second.
pub const TARGET_SAMPLE_RATE: u32 = 16_000;

/// `a / b`, rounded up.
pub open spec fn ceil_div(a: nat, b: nat) -> nat
    recommends
        b > 0,
{
    ((a + b - 1) / (b as int)) as nat
}

/// A waveform to resample, as a mathematical value: `frames` frames of
/// `channels` samples each at `source_rate`, to be brought to `target_rate`.
pub struct ResamplePlan {
    pub channels: nat,
    pub source_rate: nat,
    pub target_rate: nat,
    pub frames: nat,
}

impl ResamplePlan {
    /// How many frames come out: the duration times the target rate, rounded
    /// up.
    pub open spec fn len(self) -> nat {
        ceil_div(self.frames * self.target_rate, self.source_rate)
    }

    /// The source frame at or before output frame `i`.
    pub open spec fn left(self, i: nat) -> nat {
        (((i * self.source_rate) as int) / (self.target_rate as int)) as nat
    }

    /// The source frame after `left(i)`, or `left(i)` itself at the end.
    pub open spec fn right(self, i: nat) -> nat {
        if self.left(i) + 1 < self.frames {
            self.left(i) + 1
        } else {
            self.left(i)
        }
    }

    /// How far output frame `i` lies from `left(i)` towards `right(i)`, in
    /// parts of `target_rate`.
    pub open spec fn weight(self, i: nat) -> nat {
        (((i * self.source_rate) as int) % (self.target_rate as int)) as nat
    }

    /// Where the samples of source frame `f` start.
    pub open spec fn span_start(self, f: nat) -> nat {
        f * self.channels
    }
}

/// The plan for `samples` interleaved samples, or why the waveform cannot be
/// resampled: it has no channels or no rate, it ends inside a frame, or the
/// result would have more frames than can be counted.
pub open spec fn plan_for(samples: nat, channels: u16, source_rate: u32, target_rate: u32) -> Result<
    ResamplePlan,
    Failure,
> {
    let plan = ResamplePlan {
        channels: channels as nat,
        source_rate: source_rate as nat,
        target_rate: target_rate as nat,
        frames: samples / (channels as nat),
    };
    if channels == 0 {
        Err(Failure::Io("Waveform has no channels"@))
    } else if source_rate == 0 {
        Err(Failure::Io("Waveform has no sample rate"@))
    } else if samples % (channels as nat) != 0 {
        Err(Failure::Io("Waveform ends inside a frame"@))
    } else if plan.len() > usize::MAX {
        Err(Failure::Io("Waveform too long to resample"@))
    } else {
        Ok(plan)
    }
}

/// One output frame: `weight` parts of source frame `right` and
/// `target_rate - weight` parts of source frame `left`, out of `target_rate`.
#[derive(Clone, Copy, Debug, PartialEq, Eq, Structural)]
pub struct Tap {
    pub left: usize,
    pub right: usize,
    pub weight: u32,
}

/// A waveform to resample.
pub struct Resampler {
    channels: u16,
    source_rate: u32,
    target_rate: u32,
    frames: usize,
    len: usize,
}

impl View for Resampler {
    type V = ResamplePlan;

    closed spec fn view(&self) -> ResamplePlan {
        ResamplePlan {
            channels: self.channels as nat,
            source_rate: self.source_rate as nat,
            target_rate: self.target_rate as nat,
            frames: self.frames as nat,
        }
    }
}

/// `ceil_div(a, b)` is the least count of `b`s that reaches `a`.
pub proof fn lemma_ceil_div(a: nat, b: nat)
    requires
        b > 0,
    ensures
        ceil_div(a, b) * b >= a,
        ceil_div(a, b) > 0 ==> (ceil_div(a, b) - 1) * b < a,
        a > 0 ==> ceil_div(a, b) > 0,
        a == 0 ==> ceil_div(a, b) == 0,
{
    let q = (a + b - 1) / (b as int);
    let r = (a + b - 1) % (b as int);
    assert(a + b - 1 == q * b + r && 0 <= r < b && (a > 0 ==> q > 0) && (a == 0 ==> q == 0))
        by (nonlinear_arith)
        requires
            b > 0,
            q == (a + b - 1) / (b as int),
            r == (a + b - 1) % (b as int),
    ;
    assert((q - 1) * b == q * b - b) by (nonlinear_arith);
}

/// An output frame within the result lies at a source position within the
/// source.
pub proof fn lemma_left_in_source(plan: ResamplePlan, i: nat)
    requires
        plan.source_rate > 0,
        i < plan.len(),
    ensures
        plan.target_rate > 0,
        plan.frames > 0,
        plan.left(i) < plan.frames,
        plan.left(i) <= plan.right(i) < plan.frames,
        plan.weight(i) < plan.target_rate,
{
    let total = plan.frames * plan.target_rate;
    lemma_ceil_div(total, plan.source_rate);
    let len = plan.len();
    assert(plan.target_rate > 0 && plan.frames > 0) by (nonlinear_arith)
        requires
            plan.frames * plan.target_rate > 0,
    ;
    let at = (i * plan.source_rate) as int;
    assert(at <= (len - 1) * plan.source_rate) by (nonlinear_arith)
        requires
            at == i * plan.source_rate,
            i <= len - 1,
    ;
    assert(at / (plan.target_rate as int) < plan.frames && 0 <= at % (plan.target_rate as int)
        < plan.target_rate && 0 <= at / (plan.target_rate as int)) by (nonlinear_arith)
        requires
            0 <= at < plan.frames * plan.target_rate,
            plan.target_rate > 0,
    ;
}

impl Resampler {
    #[verifier::type_invariant]
    spec fn inv(self) -> bool {
        &&& self.channels > 0
        &&& self.source_rate > 0
        &&& self.frames * self.channels <= usize::MAX
        &&& self.len == self@.len()
    }

    /// Plans the resampling of `samples` interleaved samples in frames of
    /// `channels`, from `source_rate` to `target_rate`. Fails with `Io` where
    /// the waveform cannot be resampled.
    pub fn new(samples: usize, channels: u16, source_rate: u32, target_rate: u32) -> (r: Result<
        Resampler,
        AudioError,
    >)
        ensures
            match r {
                Ok(p) => plan_for(samples as nat, channels, source_rate, target_rate) == Ok::<
                    ResamplePlan,
                    Failure,
                >(p@),
                Err(e) => plan_for(samples as nat, channels, source_rate, target_rate) == Err::<
                    ResamplePlan,
                    Failure,
                >(e@),
            },
    {
        if channels == 0 {
            return Err(AudioError::Io(String::from_str("Waveform has no channels")));
        }
        if source_rate == 0 {
            return Err(AudioError::Io(String::from_str("Waveform has no sample rate")));
        }
        if samples % (channels as usize) != 0 {
            return Err(AudioError::Io(String::from_str("Waveform ends inside a frame")));
        }
        let frames: usize = samples / (channels as usize);
        assert(frames * channels <= samples) by (nonlinear_arith)
            requires
                frames == samples / (channels as usize),
                channels > 0,
        ;
        assert(frames * target_rate <= 0xffff_ffff_ffff_ffff * 0xffff_ffff) by (nonlinear_arith)
            requires
                frames <= 0xffff_ffff_ffff_ffff,
                target_rate <= 0xffff_ffff,
        ;
        let total: u128 = (frames as u128) * (target_rate as u128);
        let len: u128 = (total + (source_rate as u128 - 1)) / (source_rate as u128);
        if len > usize::MAX as u128 {
            return Err(AudioError::Io(String::from_str("Waveform too long to resample")));
        }
        Ok(Resampler { channels, source_rate, target_rate, frames, len: len as usize })
    }

    /// How many frames come out.
    pub fn len(&self) -> (n: usize)
        ensures
            n == self@.len(),
    {
        proof {
            use_type_invariant(self);
        }
        self.len
    }

    /// How many frames the source has.
    pub fn frames(&self) -> (n: usize)
        ensures
            n == self@.frames,
    {
        self.frames
    }

    /// Where output frame `index` lies in the source, or `None` where the
    /// result has no such frame.
    pub fn tap(&self, index: usize) -> (r: Option<Tap>)
        ensures
            match r {
                Some(t) => {
                    &&& index < self@.len()
                    &&& t.left == self@.left(index as nat)
                    &&& t.right == self@.right(index as nat)
                    &&& t.weight == self@.weight(index as nat)
                    &&& t.left <= t.right < self@.frames
                    &&& t.weight < self@.target_rate
                },
                None => index >= self@.len(),
            },
    {
        proof {
            use_type_invariant(self);
        }
        if index >= self.len {
            return None;
        }
        proof {
            lemma_left_in_source(self@, index as nat);
            assert(index * self.source_rate <= 0xffff_ffff_ffff_ffff * 0xffff_ffff)
                by (nonlinear_arith)
                requires
                    index <= 0xffff_ffff_ffff_ffff,
                    self.source_rate <= 0xffff_ffff,
            ;
        }
        let at: u128 = (index as u128) * (self.source_rate as u128);
        let left: usize = (at / (self.target_rate as u128)) as usize;
        let weight: u32 = (at % (self.target_rate as u128)) as u32;
        let right: usize = if left + 1 < self.frames {
            left + 1
        } else {
            left
        };
        Some(Tap { left, right, weight })
    }

    /// Where the samples of source frame `frame` lie among the interleaved
    /// samples: from the first place to before the second. `None` where the
    /// source has no such frame.
    pub fn frame_span(&self, frame: usize) -> (r: Option<(usize, usize)>)
        ensures
            match r {
                Some((start, end)) => {
                    &&& frame < self@.frames
                    &&& start == self@.span_start(frame as nat)
                    &&& end == start + self@.channels
                    &&& end <= self@.frames * self@.channels
                },
                None => frame >= self@.frames,
            },
    {
        proof {
            use_type_invariant(self);
        }
        if frame >= self.frames {
            return None;
        }
        assert(frame * self.channels + self.channels <= self.frames * self.channels)
            by (nonlinear_arith)
            requires
                frame < self.frames,
        ;
        let start: usize = frame * (self.channels as usize);
        Some((start, start + self.channels as usize))
    }
}

/// Samples in whole frames of `channels`, captured at `source_rate` and
/// resampled to `target_rate`, give the duration times the target rate,
/// rounded up: the least count of frames whose time at the source rate
/// reaches that of the source.
pub proof fn law_resampled_len(samples: nat, channels: u16, source_rate: u32, target_rate: u32)
    requires
        plan_for(samples, channels, source_rate, target_rate) is Ok,
    ensures
        ({
            let plan = plan_for(samples, channels, source_rate, target_rate)->Ok_0;
            &&& plan.frames * channels == samples
            &&& plan.len() * source_rate >= plan.frames * target_rate
            &&& plan.len() > 0 ==> (plan.len() - 1) * source_rate < plan.frames * target_rate
            &&& plan.len() * source_rate * channels >= samples * target_rate
            &&& plan.len() > 0 ==> (plan.len() - 1) * source_rate * channels < samples
                * target_rate
        }),
{
    let plan = plan_for(samples, channels, source_rate, target_rate)->Ok_0;
    let c = channels as nat;
    assert(plan.frames * c == samples) by (nonlinear_arith)
        requires
            plan.frames == samples / c,
            samples % c == 0,
            c > 0,
    ;
    lemma_ceil_div(plan.frames * plan.target_rate, plan.source_rate);
    let len = plan.len();
    let f = plan.frames;
    let t = target_rate as nat;
    let s = source_rate as nat;
    assert(len * s * c >= samples * t) by (nonlinear_arith)
        requires
            len * s >= f * t,
            f * c == samples,
            c > 0,
    ;
    if len > 0 {
        assert((len - 1) * s * c < samples * t) by (nonlinear_arith)
            requires
                (len - 1) * s < f * t,
                f * c == samples,
                c > 0,
        ;
    }
}

/// A recording that was written can be read back and resampled, unless it was
/// captured at rate zero or the result would have more frames than can be
/// counted; what comes out then has the duration of what was written, times
/// the target rate, rounded up.
pub proof fn law_round_trip_length(samples: nat, channels: u16, source_rate: u32, target_rate: u32)
    requires
        layout(Some((source_rate, channels)), samples) is Ok,
        source_rate > 0,
        ceil_div((samples / (channels as nat)) * (target_rate as nat), source_rate as nat)
            <= usize::MAX,
    ensures
        plan_for(samples, channels, source_rate, target_rate) matches Ok(plan) && {
            &&& plan.frames * channels == samples
            &&& plan.len() * source_rate >= plan.frames * target_rate
            &&& plan.len() > 0 ==> (plan.len() - 1) * source_rate < plan.frames * target_rate
        },
{
    law_resampled_len(samples, channels, source_rate, target_rate);
}

/// The frames lie one behind the other among the interleaved samples: the
/// first starts at the first sample, each starts where the one before it
/// ends, and the last ends with the last sample.
pub proof fn law_frames_tile_the_samples(plan: ResamplePlan, f: nat)
    ensures
        plan.span_start(0) == 0,
        plan.span_start(f + 1) == plan.span_start(f) + plan.channels,
        plan.span_start(plan.frames) == plan.frames * plan.channels,
{
    assert((f + 1) * plan.channels == f * plan.channels + plan.channels) by (nonlinear_arith);
}

/// Resampling is repeatable: planned twice for the same count of samples,
/// channels and rates, it gives the same count of output frames, and takes
/// for each of them the same source frames with the same weight.
pub proof fn law_resampling_repeats(
    samples: nat,
    channels: u16,
    source_rate: u32,
    target_rate: u32,
    first: ResamplePlan,
    second: ResamplePlan,
    i: nat,
)
    requires
        plan_for(samples, channels, source_rate, target_rate) == Ok::<ResamplePlan, Failure>(
            first,
        ),
        plan_for(samples, channels, source_rate, target_rate) == Ok::<ResamplePlan, Failure>(
            second,
        ),
    ensures
        first == second,
        first.len() == second.len(),
        first.left(i) == second.left(i),
        first.right(i) == second.right(i),
        first.weight(i) == second.weight(i),
{
}

/// At equal rates every frame comes out as it went in.
pub proof fn law_same_rate_keeps_frames(plan: ResamplePlan, i: nat)
    requires
        plan.source_rate == plan.target_rate,
        plan.source_rate > 0,
    ensures
        plan.len() == plan.frames,
        plan.left(i) == i,
        plan.weight(i) == 0,
{
    let r = plan.source_rate;
    let f = plan.frames;
    assert((f * r + r - 1) / (r as int) == f) by (nonlinear_arith)
        requires
            r > 0,
    ;
    assert(((i * r) as int) / (r as int) == i && ((i * r) as int) % (r as int) == 0)
        by (nonlinear_arith)
        requires
            r > 0,
    ;
}

/// Output frames follow the source in its order: a later output frame never
/// lies at an earlier source frame.
pub proof fn law_taps_ascend(plan: ResamplePlan, i: nat, j: nat)
    requires
        plan.target_rate > 0,
        i <= j,
    ensures
        plan.left(i) <= plan.left(j),
{
    let s = plan.source_rate as int;
    let t = plan.target_rate as int;
    assert(i * s <= j * s) by (nonlinear_arith)
        requires
            i <= j,
            0 <= s,
    ;
    vstd::arithmetic::div_mod::lemma_div_is_ordered(i * s, j * s, t);
}

} // verus!
