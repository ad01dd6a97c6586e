//! The sample buffer: collects the level changes of the channels cycle by
//! cycle and resamples them to the rate of the audio device.

use vstd::prelude::*;
use vstd::arithmetic::div_mod::{lemma_div_is_ordered, lemma_fundamental_div_mod_converse};

verus! {

/// CPU cycles per second.
pub const NES_CLOCK_RATE: u64 = 1_789_773;

/// Video frames per second; one transfer carries the samples of one frame.
pub const NES_FPS: u32 = 60;

/// `v` limited to the range of `i32`.
pub open spec fn sat_i32(v: int) -> i32 {
    if v > i32::MAX {
        i32::MAX
    } else if v < i32::MIN {
        i32::MIN
    } else {
        v as i32
    }
}

/// `v` limited to the range of `i16`.
pub open spec fn clamp_i16(v: int) -> i16 {
    if v > i16::MAX {
        i16::MAX
    } else if v < i16::MIN {
        i16::MIN
    } else {
        v as i16
    }
}

/// The level after the changes of the first `n` cycles of a frame.
pub open spec fn level_after(level: i32, deltas: Seq<i32>, n: int) -> i32
    decreases n,
{
    if n <= 0 {
        level
    } else {
        sat_i32(level_after(level, deltas, n - 1) + deltas[n - 1])
    }
}

/// The least number of cycles after which `samples` output samples are
/// complete, for a buffer that is `phase` units into its current sample.
/// One cycle is worth `rate` units and one sample `NES_CLOCK_RATE` units.
pub open spec fn clocks_for(samples: int, phase: int, rate: int) -> int {
    (samples * NES_CLOCK_RATE - phase + rate - 1) / rate
}

/// The number of samples that one transfer carries.
pub open spec fn transfer_size(rate: u32) -> u32 {
    if rate / NES_FPS == 0 {
        1
    } else {
        rate / NES_FPS
    }
}

/// The changes of a frame after its first `clocks` cycles were consumed.
pub open spec fn shifted(deltas: Seq<i32>, clocks: int) -> Seq<i32> {
    Seq::new(
        deltas.len(),
        |j: int|
            if j + clocks < deltas.len() {
                deltas[j + clocks]
            } else {
                0i32
            },
    )
}

/// What a sample buffer holds.
pub struct SampleBufferView {
    pub sample_rate: u32,
    pub transfer_samples: u32,
    /// How far the buffer is into its current output sample.
    pub phase: u64,
    /// The level at the start of the current frame.
    pub level: i32,
    /// The level change at each cycle of the current frame.
    pub deltas: Seq<i32>,
    /// The samples of the last finished frame.
    pub samples: Seq<i16>,
}

impl SampleBufferView {
    pub open spec fn wf(self) -> bool {
        &&& self.sample_rate > 0
        &&& self.transfer_samples == transfer_size(self.sample_rate)
        &&& self.phase < NES_CLOCK_RATE
        &&& self.deltas.len() == clocks_for(
            self.transfer_samples as int,
            0,
            self.sample_rate as int,
        )
        &&& 1 <= self.deltas.len() <= NES_CLOCK_RATE
    }

    /// An empty buffer for a device of the given rate.
    pub open spec fn initial(rate: u32) -> SampleBufferView {
        SampleBufferView {
            sample_rate: rate,
            transfer_samples: transfer_size(rate),
            phase: 0,
            level: 0,
            deltas: Seq::new(
                clocks_for(transfer_size(rate) as int, 0, rate as int) as nat,
                |j: int| 0i32,
            ),
            samples: Seq::empty(),
        }
    }

    /// True if `other` differs from this buffer at most in the level changes
    /// of the current frame.
    pub open spec fn same_but_deltas(self, other: SampleBufferView) -> bool {
        &&& other.deltas.len() == self.deltas.len()
        &&& other == (SampleBufferView { deltas: other.deltas, ..self })
    }

    pub open spec fn spec_add_delta(self, clock_time: u32, delta: i32) -> SampleBufferView {
        SampleBufferView {
            deltas: self.deltas.update(
                clock_time as int,
                sat_i32(self.deltas[clock_time as int] + delta),
            ),
            ..self
        }
    }

    /// The number of samples that a frame of `clocks` cycles completes.
    pub open spec fn sample_count(self, clocks: int) -> int {
        (self.phase + clocks * self.sample_rate) / (NES_CLOCK_RATE as int)
    }

    /// The number of cycles of the frame that sample `k` has seen.
    pub open spec fn sample_clock(self, k: int) -> int {
        clocks_for(k + 1, self.phase as int, self.sample_rate as int)
    }

    /// Sample `k` of the current frame.
    pub open spec fn sample_at(self, k: int) -> i16 {
        clamp_i16(level_after(self.level, self.deltas, self.sample_clock(k)) as int)
    }

    /// The samples that a frame of `clocks` cycles yields.
    pub open spec fn frame_samples(self, clocks: int) -> Seq<i16> {
        Seq::new(self.sample_count(clocks) as nat, |k: int| self.sample_at(k))
    }

    pub open spec fn spec_end_frame(self, clocks: int) -> SampleBufferView {
        SampleBufferView {
            phase: ((self.phase + clocks * self.sample_rate) % (NES_CLOCK_RATE as int)) as u64,
            level: level_after(self.level, self.deltas, clocks),
            deltas: shifted(self.deltas, clocks),
            samples: self.frame_samples(clocks),
            ..self
        }
    }

    pub open spec fn spec_clocks_needed(self) -> int {
        clocks_for(self.transfer_samples as int, self.phase as int, self.sample_rate as int)
    }
}

proof fn lemma_mul_step(t: int, rate: int)
    by (nonlinear_arith)
    ensures
        (t + 1) * rate == t * rate + rate,
{
}

proof fn lemma_mul_bound(a: int, b: int, x: int, y: int)
    by (nonlinear_arith)
    requires
        0 <= a <= x,
        0 <= b <= y,
    ensures
        0 <= a * b <= x * y,
{
}

/// A sample that completes during cycle `t` has seen `t + 1` cycles.
proof fn lemma_sample_clock(phase: int, rate: int, k: int, t: int)
    requires
        rate > 0,
        phase + t * rate < (k + 1) * NES_CLOCK_RATE,
        (k + 1) * NES_CLOCK_RATE <= phase + (t + 1) * rate,
    ensures
        clocks_for(k + 1, phase, rate) == t + 1,
{
    lemma_mul_step(t, rate);
    let x = (k + 1) * NES_CLOCK_RATE - phase + rate - 1;
    let r = x - (t + 1) * rate;
    assert(0 <= r < rate);
    assert(x == (t + 1) * rate + r);
    lemma_fundamental_div_mod_converse(x, rate, t + 1, r);
}

/// The capacity of a buffer: at most one cycle per unit of the clock rate.
proof fn lemma_capacity_bounds(rate: u32)
    requires
        rate > 0,
    ensures
        1 <= clocks_for(transfer_size(rate) as int, 0, rate as int) <= NES_CLOCK_RATE,
{
    let ts = transfer_size(rate) as int;
    let r = rate as int;
    let c = NES_CLOCK_RATE as int;
    assert(1 <= ts <= r);
    lemma_mul_bound(ts, c, r, c);
    lemma_mul_bound(1, c, ts, c);
    let x = ts * c + r - 1;
    assert(r <= x);
    assert(x <= r * c + r - 1);
    lemma_div_is_ordered(r, x, r);
    assert(r / r == 1) by {
        lemma_fundamental_div_mod_converse(r, r, 1, 0);
    }
    assert(x / r <= c) by {
        lemma_fundamental_div_mod_converse(r * c + r - 1, r, c, r - 1);
        lemma_div_is_ordered(x, r * c + r - 1, r);
    }
}

/// A buffer in order needs at least one cycle for its next transfer, and no
/// more than a frame can hold.
pub proof fn lemma_clocks_needed_bounds(v: SampleBufferView)
    requires
        v.wf(),
    ensures
        1 <= v.spec_clocks_needed() <= v.deltas.len(),
        0 < v.transfer_samples * NES_CLOCK_RATE - v.phase,
        v.transfer_samples * NES_CLOCK_RATE + v.sample_rate <= u64::MAX,
{
    let ts = v.transfer_samples as int;
    let c = NES_CLOCK_RATE as int;
    let rate = v.sample_rate as int;
    lemma_mul_bound(ts, c, u32::MAX as int, c);
    lemma_mul_bound(1, c, ts, c);
    let needed = ts * c - v.phase;
    lemma_div_is_ordered(needed + rate - 1, ts * c + rate - 1, rate);
    lemma_div_is_ordered(rate, needed + rate - 1, rate);
    lemma_fundamental_div_mod_converse(rate, rate, 1, 0);
}

/// A frame of as many cycles as a transfer needs completes at least the
/// samples of one transfer, and a frame one cycle shorter does not. Where
/// the device is no faster than the CPU clock, it completes exactly those.
pub proof fn lemma_transfer_is_full(v: SampleBufferView)
    requires
        v.wf(),
    ensures
        v.sample_count(v.spec_clocks_needed()) >= v.transfer_samples,
        v.sample_count(v.spec_clocks_needed() - 1) < v.transfer_samples,
        v.sample_rate <= NES_CLOCK_RATE ==> v.sample_count(v.spec_clocks_needed())
            == v.transfer_samples,
{
    lemma_clocks_needed_bounds(v);
    let ts = v.transfer_samples as int;
    let clock = NES_CLOCK_RATE as int;
    let rate = v.sample_rate as int;
    let phase = v.phase as int;
    let needed = ts * clock - phase;
    let c = v.spec_clocks_needed();
    let r = (needed + rate - 1) % rate;
    vstd::arithmetic::div_mod::lemma_fundamental_div_mod(needed + rate - 1, rate);
    assert(needed + rate - 1 == rate * c + r);
    assert(0 <= r < rate) by {
        vstd::arithmetic::div_mod::lemma_mod_bound(needed + rate - 1, rate);
    }
    assert(rate * c == c * rate) by (nonlinear_arith);
    lemma_mul_step(c - 1, rate);
    let full = phase + c * rate;
    let short = phase + (c - 1) * rate;
    assert(ts * clock <= full < ts * clock + rate);
    assert(short < ts * clock);
    assert(0 <= short) by {
        lemma_mul_bound(0, 0, c - 1, rate);
    }
    // full / clock >= ts
    lemma_fundamental_div_mod_converse(ts * clock, clock, ts, 0);
    lemma_div_is_ordered(ts * clock, full, clock);
    // short / clock < ts
    vstd::arithmetic::div_mod::lemma_fundamental_div_mod(short, clock);
    vstd::arithmetic::div_mod::lemma_mod_bound(short, clock);
    assert(short / clock < ts) by (nonlinear_arith)
        requires
            short == clock * (short / clock) + short % clock,
            0 <= short % clock,
            short < ts * clock,
            clock > 0,
    ;
    if rate <= clock {
        lemma_mul_step(ts, clock);
        vstd::arithmetic::div_mod::lemma_fundamental_div_mod(full, clock);
        vstd::arithmetic::div_mod::lemma_mod_bound(full, clock);
        assert(full / clock < ts + 1) by (nonlinear_arith)
            requires
                full == clock * (full / clock) + full % clock,
                0 <= full % clock,
                full < (ts + 1) * clock,
                clock > 0,
        ;
    }
}

/// Ending a frame leaves a buffer in order.
pub proof fn lemma_end_frame_wf(v: SampleBufferView, clocks: int)
    requires
        v.wf(),
        0 <= clocks,
    ensures
        v.spec_end_frame(clocks).wf(),
        v.spec_end_frame(clocks).deltas.len() == v.deltas.len(),
{
    lemma_mul_bound(0, 0, clocks, v.sample_rate as int);
}

/// The sum of two levels, limited to the range of `i32`.
pub fn saturating_sum(a: i32, b: i32) -> (r: i32)
    ensures
        r == sat_i32(a + b),
{
    let s: i64 = a as i64 + b as i64;
    if s > i32::MAX as i64 {
        i32::MAX
    } else if s < i32::MIN as i64 {
        i32::MIN
    } else {
        s as i32
    }
}

/// A level as a PCM sample.
pub fn clamp_sample(v: i32) -> (r: i16)
    ensures
        r == clamp_i16(v as int),
{
    if v > i16::MAX as i32 {
        i16::MAX
    } else if v < i16::MIN as i32 {
        i16::MIN
    } else {
        v as i16
    }
}

/// Level changes per cycle of the current frame, and the resampler that
/// turns a finished frame into PCM samples. The fractional position of the
/// resampler is carried from one frame to the next.
pub struct SampleBuffer {
    sample_rate: u32,
    transfer_samples: u32,
    phase: u64,
    level: i32,
    deltas: Vec<i32>,
    samples: Vec<i16>,
}

impl SampleBuffer {
    pub closed spec fn view(&self) -> SampleBufferView {
        SampleBufferView {
            sample_rate: self.sample_rate,
            transfer_samples: self.transfer_samples,
            phase: self.phase,
            level: self.level,
            deltas: self.deltas@,
            samples: self.samples@,
        }
    }

    pub open spec fn wf(&self) -> bool {
        self@.wf()
    }

    /// The number of cycles that one frame can hold.
    pub open spec fn spec_capacity(&self) -> u32 {
        self@.deltas.len() as u32
    }

    /// An empty buffer that resamples to `sample_rate` samples per second.
    pub fn new(sample_rate: u32) -> (b: SampleBuffer)
        requires
            sample_rate > 0,
        ensures
            b.wf(),
            b@ == SampleBufferView::initial(sample_rate),
    {
        let per_frame: u32 = sample_rate / NES_FPS;
        let transfer_samples: u32 = if per_frame == 0 {
            1
        } else {
            per_frame
        };
        proof {
            lemma_capacity_bounds(sample_rate);
            lemma_mul_bound(
                transfer_samples as int,
                NES_CLOCK_RATE as int,
                u32::MAX as int,
                NES_CLOCK_RATE as int,
            );
        }
        let capacity: u64 = (transfer_samples as u64 * NES_CLOCK_RATE + sample_rate as u64 - 1)
            / (sample_rate as u64);
        let deltas: Vec<i32> = vec![0i32; capacity as usize];
        let b = SampleBuffer {
            sample_rate,
            transfer_samples,
            phase: 0,
            level: 0,
            deltas,
            samples: Vec::new(),
        };
        assert(b@.deltas =~= SampleBufferView::initial(sample_rate).deltas);
        assert(b@.samples =~= SampleBufferView::initial(sample_rate).samples);
        b
    }

    #[verifier::when_used_as_spec(spec_capacity)]
    pub fn capacity(&self) -> (c: u32)
        requires
            self.wf(),
        ensures
            c == self.spec_capacity(),
            c == self@.deltas.len(),
    {
        self.deltas.len() as u32
    }

    pub fn sample_rate(&self) -> (r: u32)
        ensures
            r == self@.sample_rate,
    {
        self.sample_rate
    }

    /// Adds `delta` to the level change at cycle `clock_time` of the current
    /// frame. The sum stays within the range of `i32`.
    pub fn add_delta(&mut self, clock_time: u32, delta: i32)
        requires
            old(self).wf(),
            clock_time < old(self).spec_capacity(),
        ensures
            final(self).wf(),
            final(self)@ == old(self)@.spec_add_delta(clock_time, delta),
    {
        let i: usize = clock_time as usize;
        let sum: i32 = saturating_sum(self.deltas[i], delta);
        self.deltas[i] = sum;
    }

    /// Ends the current frame after `clocks` cycles. The samples that the
    /// frame completes replace those of the frame before; changes recorded
    /// at or after `clocks` move to the start of the next frame.
    pub fn end_frame(&mut self, clocks: u32)
        requires
            old(self).wf(),
            clocks <= old(self).spec_capacity(),
        ensures
            final(self).wf(),
            final(self)@ == old(self)@.spec_end_frame(clocks as int),
    {
        let ghost v0 = self@;
        let rate: u64 = self.sample_rate as u64;
        let n: usize = clocks as usize;
        let mut out: Vec<i16> = Vec::new();
        let mut acc: u64 = self.phase;
        let mut lvl: i32 = self.level;
        let mut t: usize = 0;
        while t < n
            invariant
                v0.wf(),
                self@ == v0,
                rate == v0.sample_rate,
                n <= v0.deltas.len(),
                t <= n,
                acc < NES_CLOCK_RATE,
                v0.phase + t * rate == out.len() * NES_CLOCK_RATE + acc,
                lvl == level_after(v0.level, v0.deltas, t as int),
                forall|k: int| 0 <= k < out.len() ==> out[k] == v0.sample_at(k),
            decreases n - t,
        {
            lvl = saturating_sum(lvl, self.deltas[t]);
            acc = acc + rate;
            let ghost base = out.len();
            proof {
                lemma_mul_step(t as int, rate as int);
            }
            while acc >= NES_CLOCK_RATE
                invariant
                    v0.wf(),
                    rate == v0.sample_rate,
                    base <= out.len(),
                    v0.phase + t * rate < (base + 1) * NES_CLOCK_RATE,
                    v0.phase + (t + 1) * rate == out.len() * NES_CLOCK_RATE + acc,
                    lvl == level_after(v0.level, v0.deltas, t + 1),
                    forall|k: int| 0 <= k < out.len() ==> out[k] == v0.sample_at(k),
                decreases acc,
            {
                proof {
                    lemma_sample_clock(v0.phase as int, rate as int, out.len() as int, t as int);
                }
                out.push(clamp_sample(lvl));
                acc = acc - NES_CLOCK_RATE;
            }
            t = t + 1;
        }
        proof {
            lemma_fundamental_div_mod_converse(
                v0.phase + n * rate,
                NES_CLOCK_RATE as int,
                out.len() as int,
                acc as int,
            );
            assert(out@ =~= v0.frame_samples(clocks as int));
        }
        self.phase = acc;
        self.level = lvl;
        self.samples = out;
        let cap: usize = self.deltas.len();
        let mut i: usize = 0;
        while i < cap
            invariant
                cap == self.deltas.len(),
                cap == v0.deltas.len(),
                cap <= NES_CLOCK_RATE,
                n <= cap,
                i <= cap,
                self.sample_rate == v0.sample_rate,
                self.transfer_samples == v0.transfer_samples,
                self.phase == acc,
                self.level == lvl,
                self.samples@ == v0.frame_samples(clocks as int),
                forall|j: int| 0 <= j < i ==> self.deltas[j] == shifted(v0.deltas, n as int)[j],
                forall|j: int| i <= j < cap ==> self.deltas[j] == v0.deltas[j],
            decreases cap - i,
        {
            let d: i32 = if i + n < cap {
                self.deltas[i + n]
            } else {
                0
            };
            self.deltas[i] = d;
            i = i + 1;
        }
        assert(self.deltas@ =~= shifted(v0.deltas, clocks as int));
    }

    /// The level change recorded at cycle `clock_time` of the current frame.
    pub fn delta_at(&self, clock_time: u32) -> (delta: i32)
        requires
            clock_time < self@.deltas.len(),
        ensures
            delta == self@.deltas[clock_time as int],
    {
        self.deltas[clock_time as usize]
    }

    /// The level at the start of the current frame.
    pub fn level(&self) -> (level: i32)
        ensures
            level == self@.level,
    {
        self.level
    }

    /// The samples of the last finished frame.
    pub fn read(&self) -> (s: &[i16])
        ensures
            s@ == self@.samples,
    {
        self.samples.as_slice()
    }

    /// The number of cycles after which the current frame completes one
    /// transfer's worth of samples.
    pub fn clocks_needed(&self) -> (c: u32)
        requires
            self.wf(),
        ensures
            c == self@.spec_clocks_needed(),
            1 <= c <= self.spec_capacity(),
    {
        let rate: u64 = self.sample_rate as u64;
        proof {
            lemma_clocks_needed_bounds(self@);
        }
        let needed: u64 = self.transfer_samples as u64 * NES_CLOCK_RATE - self.phase;
        ((needed + rate - 1) / rate) as u32
    }
}

} // verus!
