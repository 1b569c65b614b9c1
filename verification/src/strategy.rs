//! The six generator strategies.
//!
//! Every strategy renders blocks of a fixed 440 Hz sine tone. A rendered
//! frame is described by its phase numerator `n`: the host plays the sample
//! `sin(2 * pi * 440 * n / rate)`, evaluating the quotient `n / rate` at the
//! precision the variant is named after. The strategies differ only in how
//! the numerator evolves:
//!
//! * `Silence` ignores phase and keeps every numerator at zero, so every
//!   sample is `sin(0) = 0.0`;
//! * `F32Processor` and `F64Processor` let the committed offset grow without
//!   bound (converting a large numerator to the narrower output precision is
//!   where those variants lose accuracy over long runs);
//! * `F32ProcessorWithWrapping` and `F64ProcessorWithWrapping` reset the
//!   offset to zero whenever it reaches one full second, keeping it strictly
//!   inside one cycle;
//! * `IntProcessor` keeps a sample counter reduced modulo the rate after
//!   every block.

use vstd::arithmetic::div_mod::{
    lemma_add_mod_noop_right, lemma_mod_bound, lemma_mod_self_0, lemma_small_mod,
};
use vstd::prelude::*;

verus! {

/// How far a wrapping strategy's committed offset moves over a block of `k`
/// frames: the whole block is added at once, and a single crossing of the
/// one-second boundary resets the offset to zero.
pub open spec fn spec_wrap_advance(t0: int, k: int, rate: int) -> int {
    if t0 + k >= rate {
        0
    } else {
        t0 + k
    }
}

/// The running per-frame numerator of a wrapping strategy over one block:
/// it starts at the committed offset `t0` and steps one frame at a time,
/// resetting to zero the moment it reaches one full second. An offset that
/// starts inside one cycle therefore runs as `(t0 + i) % rate`. An offset
/// at or above the rate — possible right after the rate drops below it,
/// since a rate change never resets phase state — is rendered unwrapped for
/// its first frame and wraps to zero at the very next step, because the
/// per-sample policy acts only when the running value crosses the boundary.
pub open spec fn spec_wrapped_run(t0: int, rate: int, i: int) -> int {
    if t0 < rate {
        (t0 + i) % rate
    } else if i == 0 {
        t0
    } else {
        (i - 1) % rate
    }
}

/// Every frame a wrapping strategy renders from an offset inside one cycle
/// keeps its phase inside that cycle: the numerator stays strictly below
/// the rate, so the phase stays strictly below one full second.
pub proof fn lemma_wrapped_run_in_cycle(t0: int, rate: int, i: int)
    requires
        rate >= 1,
        0 <= t0 < rate,
        0 <= i,
    ensures
        0 <= spec_wrapped_run(t0, rate, i) < rate,
{
    lemma_mod_bound(t0 + i, rate);
}

/// The per-sample wrap law: starting strictly inside one cycle and stepping
/// one frame at a time, the running numerator `(n % rate)` stays strictly
/// below `rate` (the phase stays below one full second), and the step that
/// would reach the boundary resets it to zero exactly.
pub proof fn lemma_wrap_step(n: int, rate: int)
    requires
        n >= 0,
        rate >= 1,
    ensures
        0 <= n % rate < rate,
        (n % rate) + 1 < rate ==> (n + 1) % rate == (n % rate) + 1,
        (n % rate) + 1 >= rate ==> (n + 1) % rate == 0,
{
    lemma_mod_bound(n, rate);
    lemma_add_mod_noop_right(1, n, rate);
    if (n % rate) + 1 < rate {
        lemma_small_mod(((n % rate) + 1) as nat, rate as nat);
    } else {
        lemma_mod_self_0(rate);
    }
}

/// Writes silent blocks: every rendered frame carries phase numerator zero,
/// so every sample is `sin(0) = 0.0`.
pub struct Silence {}

impl Silence {
    pub fn new() -> (r: Silence)
        ensures
            r == (Silence {  }),
    {
        Silence {  }
    }

    pub fn get_id(&self) -> (id: i32)
        ensures
            id == 0,
    {
        0
    }

    /// Every channel receives `frame_count` frames of phase zero; the
    /// strategy keeps no state.
    #[verifier::loop_isolation(false)]
    pub fn process(&mut self, channels: usize, frame_count: usize) -> (out: Vec<Vec<u64>>)
        ensures
            out@.len() == channels,
            forall|c: int| 0 <= c < channels ==> (#[trigger] out@[c])@.len() == frame_count,
            forall|c: int, i: int|
                0 <= c < channels && 0 <= i < frame_count ==> #[trigger] out@[c]@[i] == 0,
            *final(self) == *old(self),
    {
        let mut out: Vec<Vec<u64>> = Vec::new();
        let mut c: usize = 0;
        while c < channels
            invariant
                c <= channels,
                out@.len() == c,
                forall|cc: int| 0 <= cc < c ==> (#[trigger] out@[cc])@.len() == frame_count,
                forall|cc: int, i: int|
                    0 <= cc < c && 0 <= i < frame_count ==> #[trigger] out@[cc]@[i] == 0,
            decreases channels - c,
        {
            let mut row: Vec<u64> = Vec::new();
            let mut i: usize = 0;
            while i < frame_count
                invariant
                    i <= frame_count,
                    row@.len() == i,
                    forall|j: int| 0 <= j < i ==> #[trigger] row@[j] == 0,
                decreases frame_count - i,
            {
                row.push(0);
                i = i + 1;
            }
            out.push(row);
            c = c + 1;
        }
        out
    }

    pub fn set_sample_rate(&mut self, _rate: u64)
        ensures
            *final(self) == *old(self),
    {
    }
}

/// Accumulates time without bound; the host evaluates the phase quotient in
/// 32-bit floating point, where precision decays as the offset grows.
pub struct F32Processor {
    /// Committed phase numerator: the number of frames rendered so far, so
    /// that the block starts `time_offset / sample_rate` seconds into the
    /// tone.
    pub time_offset: u64,
    /// Frames per second. Must stay positive: the phase of a frame divides
    /// by it.
    pub sample_rate: u64,
}

impl F32Processor {
    pub fn new(sample_rate: u64) -> (r: F32Processor)
        requires
            sample_rate >= 1,
        ensures
            r == (F32Processor { time_offset: 0, sample_rate }),
    {
        F32Processor { time_offset: 0, sample_rate }
    }

    pub fn get_id(&self) -> (id: i32)
        ensures
            id == 1,
    {
        1
    }

    /// Frame `i` of the block carries phase numerator `time_offset + i`;
    /// every channel receives the same sequence, and the committed offset
    /// advances by exactly one block, once, after all channels are rendered.
    #[verifier::loop_isolation(false)]
    pub fn process(&mut self, channels: usize, frame_count: usize) -> (out: Vec<Vec<u64>>)
        requires
            old(self).time_offset + frame_count <= u64::MAX,
        ensures
            out@.len() == channels,
            forall|c: int| 0 <= c < channels ==> (#[trigger] out@[c])@.len() == frame_count,
            forall|c: int, i: int|
                0 <= c < channels && 0 <= i < frame_count ==> #[trigger] out@[c]@[i]
                    == old(self).time_offset + i,
            final(self).time_offset == old(self).time_offset + frame_count,
            final(self).sample_rate == old(self).sample_rate,
    {
        let mut out: Vec<Vec<u64>> = Vec::new();
        let mut c: usize = 0;
        while c < channels
            invariant
                c <= channels,
                out@.len() == c,
                forall|cc: int| 0 <= cc < c ==> (#[trigger] out@[cc])@.len() == frame_count,
                forall|cc: int, i: int|
                    0 <= cc < c && 0 <= i < frame_count ==> #[trigger] out@[cc]@[i]
                        == self.time_offset + i,
            decreases channels - c,
        {
            let mut t: u64 = self.time_offset;
            let mut row: Vec<u64> = Vec::new();
            let mut i: usize = 0;
            while i < frame_count
                invariant
                    i <= frame_count,
                    row@.len() == i,
                    t == self.time_offset + i,
                    forall|j: int| 0 <= j < i ==> #[trigger] row@[j] == self.time_offset + j,
                decreases frame_count - i,
            {
                row.push(t);
                t = t + 1;
                i = i + 1;
            }
            out.push(row);
            c = c + 1;
        }
        self.time_offset = self.time_offset + frame_count as u64;
        out
    }

    pub fn set_sample_rate(&mut self, rate: u64)
        requires
            rate >= 1,
        ensures
            final(self).sample_rate == rate,
            final(self).time_offset == old(self).time_offset,
    {
        self.sample_rate = rate;
    }
}

/// Accumulates time without bound, like `F32Processor`; the host evaluates
/// the phase quotient in 64-bit floating point, so precision decays more
/// slowly.
pub struct F64Processor {
    /// Committed phase numerator; see `F32Processor::time_offset`.
    pub time_offset: u64,
    /// Frames per second; must stay positive.
    pub sample_rate: u64,
}

impl F64Processor {
    pub fn new(sample_rate: u64) -> (r: F64Processor)
        requires
            sample_rate >= 1,
        ensures
            r == (F64Processor { time_offset: 0, sample_rate }),
    {
        F64Processor { time_offset: 0, sample_rate }
    }

    pub fn get_id(&self) -> (id: i32)
        ensures
            id == 2,
    {
        2
    }

    /// Frame `i` carries phase numerator `time_offset + i`; the committed
    /// offset advances by exactly one block, once per call.
    #[verifier::loop_isolation(false)]
    pub fn process(&mut self, channels: usize, frame_count: usize) -> (out: Vec<Vec<u64>>)
        requires
            old(self).time_offset + frame_count <= u64::MAX,
        ensures
            out@.len() == channels,
            forall|c: int| 0 <= c < channels ==> (#[trigger] out@[c])@.len() == frame_count,
            forall|c: int, i: int|
                0 <= c < channels && 0 <= i < frame_count ==> #[trigger] out@[c]@[i]
                    == old(self).time_offset + i,
            final(self).time_offset == old(self).time_offset + frame_count,
            final(self).sample_rate == old(self).sample_rate,
    {
        let mut out: Vec<Vec<u64>> = Vec::new();
        let mut c: usize = 0;
        while c < channels
            invariant
                c <= channels,
                out@.len() == c,
                forall|cc: int| 0 <= cc < c ==> (#[trigger] out@[cc])@.len() == frame_count,
                forall|cc: int, i: int|
                    0 <= cc < c && 0 <= i < frame_count ==> #[trigger] out@[cc]@[i]
                        == self.time_offset + i,
            decreases channels - c,
        {
            let mut t: u64 = self.time_offset;
            let mut row: Vec<u64> = Vec::new();
            let mut i: usize = 0;
            while i < frame_count
                invariant
                    i <= frame_count,
                    row@.len() == i,
                    t == self.time_offset + i,
                    forall|j: int| 0 <= j < i ==> #[trigger] row@[j] == self.time_offset + j,
                decreases frame_count - i,
            {
                row.push(t);
                t = t + 1;
                i = i + 1;
            }
            out.push(row);
            c = c + 1;
        }
        self.time_offset = self.time_offset + frame_count as u64;
        out
    }

    pub fn set_sample_rate(&mut self, rate: u64)
        requires
            rate >= 1,
        ensures
            final(self).sample_rate == rate,
            final(self).time_offset == old(self).time_offset,
    {
        self.sample_rate = rate;
    }
}

/// Keeps the phase inside one cycle: the running numerator resets to zero
/// the moment it reaches one full second, and so does the committed offset
/// when a whole block pushes it past the boundary. The host evaluates the
/// phase quotient in 32-bit floating point.
pub struct F32ProcessorWithWrapping {
    /// Committed phase numerator: the block starts `time_offset /
    /// sample_rate` seconds into a cycle. Rendering keeps it strictly below
    /// `sample_rate`; a rate change keeps the numerator as it is, so a
    /// lowered rate can leave it at or above the rate until the next block
    /// wraps it.
    pub time_offset: u64,
    /// Frames per second; must stay positive.
    pub sample_rate: u64,
}

impl F32ProcessorWithWrapping {
    pub fn new(sample_rate: u64) -> (r: F32ProcessorWithWrapping)
        requires
            sample_rate >= 1,
        ensures
            r == (F32ProcessorWithWrapping { time_offset: 0, sample_rate }),
    {
        F32ProcessorWithWrapping { time_offset: 0, sample_rate }
    }

    pub fn get_id(&self) -> (id: i32)
        ensures
            id == 3,
    {
        3
    }

    /// Frame `i` carries the running numerator `spec_wrapped_run(t0, rate,
    /// i)`: the value steps by one frame and resets to zero exactly when it
    /// reaches one full second, so from an offset inside one cycle every
    /// rendered phase stays strictly below one cycle. The committed offset
    /// advances by the whole block at once and a single boundary crossing
    /// resets it to zero, which always leaves it strictly inside one cycle.
    #[verifier::loop_isolation(false)]
    pub fn process(&mut self, channels: usize, frame_count: usize) -> (out: Vec<Vec<u64>>)
        requires
            old(self).sample_rate >= 1,
        ensures
            out@.len() == channels,
            forall|c: int| 0 <= c < channels ==> (#[trigger] out@[c])@.len() == frame_count,
            forall|c: int, i: int|
                0 <= c < channels && 0 <= i < frame_count ==> #[trigger] out@[c]@[i]
                    == spec_wrapped_run(
                    old(self).time_offset as int,
                    old(self).sample_rate as int,
                    i,
                ),
            forall|c: int, i: int|
                0 <= c < channels && 0 <= i < frame_count && old(self).time_offset < old(
                    self,
                ).sample_rate ==> #[trigger] out@[c]@[i] < old(self).sample_rate,
            final(self).time_offset == spec_wrap_advance(
                old(self).time_offset as int,
                frame_count as int,
                old(self).sample_rate as int,
            ),
            final(self).sample_rate == old(self).sample_rate,
            final(self).time_offset < final(self).sample_rate,
    {
        proof {
            if self.time_offset < self.sample_rate {
                lemma_small_mod(self.time_offset as nat, self.sample_rate as nat);
            }
        }
        let mut out: Vec<Vec<u64>> = Vec::new();
        let mut c: usize = 0;
        while c < channels
            invariant
                c <= channels,
                out@.len() == c,
                forall|cc: int| 0 <= cc < c ==> (#[trigger] out@[cc])@.len() == frame_count,
                forall|cc: int, i: int|
                    0 <= cc < c && 0 <= i < frame_count ==> #[trigger] out@[cc]@[i]
                        == spec_wrapped_run(
                        self.time_offset as int,
                        self.sample_rate as int,
                        i,
                    ),
            decreases channels - c,
        {
            let mut t: u64 = self.time_offset;
            let mut row: Vec<u64> = Vec::new();
            let mut i: usize = 0;
            while i < frame_count
                invariant
                    i <= frame_count,
                    row@.len() == i,
                    t == spec_wrapped_run(self.time_offset as int, self.sample_rate as int, i as int),
                    forall|j: int|
                        0 <= j < i ==> #[trigger] row@[j] == spec_wrapped_run(
                            self.time_offset as int,
                            self.sample_rate as int,
                            j,
                        ),
                decreases frame_count - i,
            {
                row.push(t);
                proof {
                    if self.time_offset < self.sample_rate {
                        lemma_wrap_step(self.time_offset + i, self.sample_rate as int);
                    } else if i == 0 {
                        lemma_small_mod(0nat, self.sample_rate as nat);
                    } else {
                        lemma_wrap_step(i - 1, self.sample_rate as int);
                    }
                }
                if t >= self.sample_rate - 1 {
                    t = 0;
                } else {
                    t = t + 1;
                }
                i = i + 1;
            }
            out.push(row);
            c = c + 1;
        }
        proof {
            assert forall|i: int|
                0 <= i < frame_count && self.time_offset < self.sample_rate implies spec_wrapped_run(
                self.time_offset as int,
                self.sample_rate as int,
                i,
            ) < self.sample_rate by {
                lemma_mod_bound(self.time_offset + i, self.sample_rate as int);
            }
        }
        if self.time_offset >= self.sample_rate || frame_count as u64 >= self.sample_rate
            - self.time_offset {
            self.time_offset = 0;
        } else {
            self.time_offset = self.time_offset + frame_count as u64;
        }
        out
    }

    /// Updates the stored rate and nothing else: the accumulated numerator
    /// is never reset by a rate change. The offset in seconds is thereby
    /// re-denominated from `time_offset / old rate` to `time_offset / rate`,
    /// and a rate at or below the stored numerator leaves the offset past
    /// one full second until the next block wraps it.
    pub fn set_sample_rate(&mut self, rate: u64)
        requires
            rate >= 1,
        ensures
            final(self).sample_rate == rate,
            final(self).time_offset == old(self).time_offset,
    {
        self.sample_rate = rate;
    }
}

/// Keeps the phase inside one cycle, like `F32ProcessorWithWrapping`; the
/// host evaluates the phase quotient in 64-bit floating point.
pub struct F64ProcessorWithWrapping {
    /// Committed phase numerator; see
    /// `F32ProcessorWithWrapping::time_offset`.
    pub time_offset: u64,
    /// Frames per second; must stay positive.
    pub sample_rate: u64,
}

impl F64ProcessorWithWrapping {
    pub fn new(sample_rate: u64) -> (r: F64ProcessorWithWrapping)
        requires
            sample_rate >= 1,
        ensures
            r == (F64ProcessorWithWrapping { time_offset: 0, sample_rate }),
    {
        F64ProcessorWithWrapping { time_offset: 0, sample_rate }
    }

    pub fn get_id(&self) -> (id: i32)
        ensures
            id == 4,
    {
        4
    }

    /// Frame `i` carries the running numerator `spec_wrapped_run(t0, rate,
    /// i)`; see `F32ProcessorWithWrapping::process` for the wrap policy.
    #[verifier::loop_isolation(false)]
    pub fn process(&mut self, channels: usize, frame_count: usize) -> (out: Vec<Vec<u64>>)
        requires
            old(self).sample_rate >= 1,
        ensures
            out@.len() == channels,
            forall|c: int| 0 <= c < channels ==> (#[trigger] out@[c])@.len() == frame_count,
            forall|c: int, i: int|
                0 <= c < channels && 0 <= i < frame_count ==> #[trigger] out@[c]@[i]
                    == spec_wrapped_run(
                    old(self).time_offset as int,
                    old(self).sample_rate as int,
                    i,
                ),
            forall|c: int, i: int|
                0 <= c < channels && 0 <= i < frame_count && old(self).time_offset < old(
                    self,
                ).sample_rate ==> #[trigger] out@[c]@[i] < old(self).sample_rate,
            final(self).time_offset == spec_wrap_advance(
                old(self).time_offset as int,
                frame_count as int,
                old(self).sample_rate as int,
            ),
            final(self).sample_rate == old(self).sample_rate,
            final(self).time_offset < final(self).sample_rate,
    {
        proof {
            if self.time_offset < self.sample_rate {
                lemma_small_mod(self.time_offset as nat, self.sample_rate as nat);
            }
        }
        let mut out: Vec<Vec<u64>> = Vec::new();
        let mut c: usize = 0;
        while c < channels
            invariant
                c <= channels,
                out@.len() == c,
                forall|cc: int| 0 <= cc < c ==> (#[trigger] out@[cc])@.len() == frame_count,
                forall|cc: int, i: int|
                    0 <= cc < c && 0 <= i < frame_count ==> #[trigger] out@[cc]@[i]
                        == spec_wrapped_run(
                        self.time_offset as int,
                        self.sample_rate as int,
                        i,
                    ),
            decreases channels - c,
        {
            let mut t: u64 = self.time_offset;
            let mut row: Vec<u64> = Vec::new();
            let mut i: usize = 0;
            while i < frame_count
                invariant
                    i <= frame_count,
                    row@.len() == i,
                    t == spec_wrapped_run(self.time_offset as int, self.sample_rate as int, i as int),
                    forall|j: int|
                        0 <= j < i ==> #[trigger] row@[j] == spec_wrapped_run(
                            self.time_offset as int,
                            self.sample_rate as int,
                            j,
                        ),
                decreases frame_count - i,
            {
                row.push(t);
                proof {
                    if self.time_offset < self.sample_rate {
                        lemma_wrap_step(self.time_offset + i, self.sample_rate as int);
                    } else if i == 0 {
                        lemma_small_mod(0nat, self.sample_rate as nat);
                    } else {
                        lemma_wrap_step(i - 1, self.sample_rate as int);
                    }
                }
                if t >= self.sample_rate - 1 {
                    t = 0;
                } else {
                    t = t + 1;
                }
                i = i + 1;
            }
            out.push(row);
            c = c + 1;
        }
        proof {
            assert forall|i: int|
                0 <= i < frame_count && self.time_offset < self.sample_rate implies spec_wrapped_run(
                self.time_offset as int,
                self.sample_rate as int,
                i,
            ) < self.sample_rate by {
                lemma_mod_bound(self.time_offset + i, self.sample_rate as int);
            }
        }
        if self.time_offset >= self.sample_rate || frame_count as u64 >= self.sample_rate
            - self.time_offset {
            self.time_offset = 0;
        } else {
            self.time_offset = self.time_offset + frame_count as u64;
        }
        out
    }

    /// Updates the stored rate and nothing else: the accumulated numerator
    /// is never reset by a rate change. The offset in seconds is thereby
    /// re-denominated from `time_offset / old rate` to `time_offset / rate`,
    /// and a rate at or below the stored numerator leaves the offset past
    /// one full second until the next block wraps it.
    pub fn set_sample_rate(&mut self, rate: u64)
        requires
            rate >= 1,
        ensures
            final(self).sample_rate == rate,
            final(self).time_offset == old(self).time_offset,
    {
        self.sample_rate = rate;
    }
}

/// Counts rendered frames in an integer and recomputes the phase of every
/// frame fresh from that counter, so no floating-point error accumulates in
/// the state at all. After each block the counter is reduced modulo the
/// rate, which keeps it bounded without moving the phase: the carrier
/// completes a whole number of cycles per second, so numerators that agree
/// modulo the rate denote the same sample.
pub struct IntProcessor {
    /// Committed sample counter; the phase of the next frame is
    /// `samples / sample_rate` seconds. Reduced modulo `sample_rate` after
    /// every block, so it stays in `[0, sample_rate)` until a rate change.
    pub samples: u64,
    /// Frames per second; must stay positive.
    pub sample_rate: u64,
}

impl IntProcessor {
    pub fn new(sample_rate: u64) -> (r: IntProcessor)
        requires
            sample_rate >= 1,
        ensures
            r == (IntProcessor { samples: 0, sample_rate }),
    {
        IntProcessor { samples: 0, sample_rate }
    }

    pub fn get_id(&self) -> (id: i32)
        ensures
            id == 5,
    {
        5
    }

    /// Frame `i` carries phase numerator `samples + i` (the counter is not
    /// wrapped inside a block); after the block the committed counter is the
    /// advanced count reduced modulo the rate, hence strictly below the
    /// rate.
    #[verifier::loop_isolation(false)]
    pub fn process(&mut self, channels: usize, frame_count: usize) -> (out: Vec<Vec<u64>>)
        requires
            old(self).sample_rate >= 1,
            old(self).samples + frame_count <= u64::MAX,
        ensures
            out@.len() == channels,
            forall|c: int| 0 <= c < channels ==> (#[trigger] out@[c])@.len() == frame_count,
            forall|c: int, i: int|
                0 <= c < channels && 0 <= i < frame_count ==> #[trigger] out@[c]@[i]
                    == old(self).samples + i,
            final(self).samples == (old(self).samples + frame_count) % (
            old(self).sample_rate as int),
            final(self).samples < final(self).sample_rate,
            final(self).sample_rate == old(self).sample_rate,
    {
        let mut out: Vec<Vec<u64>> = Vec::new();
        let mut c: usize = 0;
        while c < channels
            invariant
                c <= channels,
                out@.len() == c,
                forall|cc: int| 0 <= cc < c ==> (#[trigger] out@[cc])@.len() == frame_count,
                forall|cc: int, i: int|
                    0 <= cc < c && 0 <= i < frame_count ==> #[trigger] out@[cc]@[i]
                        == self.samples + i,
            decreases channels - c,
        {
            let mut s: u64 = self.samples;
            let mut row: Vec<u64> = Vec::new();
            let mut i: usize = 0;
            while i < frame_count
                invariant
                    i <= frame_count,
                    row@.len() == i,
                    s == self.samples + i,
                    forall|j: int| 0 <= j < i ==> #[trigger] row@[j] == self.samples + j,
                decreases frame_count - i,
            {
                row.push(s);
                s = s + 1;
                i = i + 1;
            }
            out.push(row);
            c = c + 1;
        }
        proof {
            lemma_mod_bound(self.samples + frame_count, self.sample_rate as int);
        }
        self.samples = (self.samples + frame_count as u64) % self.sample_rate;
        out
    }

    /// Updates the stored rate and keeps the counter; a counter at or above
    /// a lowered rate is reduced again at the end of the next block.
    pub fn set_sample_rate(&mut self, rate: u64)
        requires
            rate >= 1,
        ensures
            final(self).sample_rate == rate,
            final(self).samples == old(self).samples,
    {
        self.sample_rate = rate;
    }
}

/// The closed family of generator strategies: exactly one variant is active
/// at a time, and all of them answer the same calls.
pub enum Strategy {
    Silence(Silence),
    F32(F32Processor),
    F64(F64Processor),
    F32Wrapping(F32ProcessorWithWrapping),
    F64Wrapping(F64ProcessorWithWrapping),
    Integer(IntProcessor),
}

/// The constant identity each variant reports.
pub open spec fn strategy_id_spec(s: Strategy) -> int {
    match s {
        Strategy::Silence(_) => 0,
        Strategy::F32(_) => 1,
        Strategy::F64(_) => 2,
        Strategy::F32Wrapping(_) => 3,
        Strategy::F64Wrapping(_) => 4,
        Strategy::Integer(_) => 5,
    }
}

/// Well-formed strategy state: a positive rate wherever a rate is stored.
pub open spec fn strategy_wf(s: Strategy) -> bool {
    match s {
        Strategy::Silence(_) => true,
        Strategy::F32(p) => p.sample_rate >= 1,
        Strategy::F64(p) => p.sample_rate >= 1,
        Strategy::F32Wrapping(p) => p.sample_rate >= 1,
        Strategy::F64Wrapping(p) => p.sample_rate >= 1,
        Strategy::Integer(p) => p.sample_rate >= 1,
    }
}

/// The phase numerator a strategy in state `s` writes for frame `i` of its
/// next block: the host plays `sin(2 * pi * 440 * n / rate)` for numerator
/// `n`.
pub open spec fn block_phase(s: Strategy, i: int) -> int {
    match s {
        Strategy::Silence(_) => 0,
        Strategy::F32(p) => p.time_offset + i,
        Strategy::F64(p) => p.time_offset + i,
        Strategy::F32Wrapping(p) => spec_wrapped_run(p.time_offset as int, p.sample_rate as int, i),
        Strategy::F64Wrapping(p) => spec_wrapped_run(p.time_offset as int, p.sample_rate as int, i),
        Strategy::Integer(p) => p.samples + i,
    }
}

/// The state a strategy commits after rendering one block of `k` frames:
/// the advance happens exactly once per block, never once per channel.
pub open spec fn advanced(s: Strategy, k: int) -> Strategy {
    match s {
        Strategy::Silence(p) => Strategy::Silence(p),
        Strategy::F32(p) => Strategy::F32(
            F32Processor { time_offset: (p.time_offset + k) as u64, sample_rate: p.sample_rate },
        ),
        Strategy::F64(p) => Strategy::F64(
            F64Processor { time_offset: (p.time_offset + k) as u64, sample_rate: p.sample_rate },
        ),
        Strategy::F32Wrapping(p) => Strategy::F32Wrapping(
            F32ProcessorWithWrapping {
                time_offset: spec_wrap_advance(
                    p.time_offset as int,
                    k,
                    p.sample_rate as int,
                ) as u64,
                sample_rate: p.sample_rate,
            },
        ),
        Strategy::F64Wrapping(p) => Strategy::F64Wrapping(
            F64ProcessorWithWrapping {
                time_offset: spec_wrap_advance(
                    p.time_offset as int,
                    k,
                    p.sample_rate as int,
                ) as u64,
                sample_rate: p.sample_rate,
            },
        ),
        Strategy::Integer(p) => Strategy::Integer(
            IntProcessor {
                samples: ((p.samples + k) % (p.sample_rate as int)) as u64,
                sample_rate: p.sample_rate,
            },
        ),
    }
}

/// Whether a strategy can render a block of `frame_count` frames without
/// its committed numerator outgrowing the machine word.
pub open spec fn can_render(s: Strategy, frame_count: int) -> bool {
    match s {
        Strategy::Silence(_) => true,
        Strategy::F32(p) => p.time_offset + frame_count <= u64::MAX,
        Strategy::F64(p) => p.time_offset + frame_count <= u64::MAX,
        Strategy::F32Wrapping(_) => true,
        Strategy::F64Wrapping(_) => true,
        Strategy::Integer(p) => p.samples + frame_count <= u64::MAX,
    }
}

/// The state a strategy reaches when told the rate is now `rate`: the rate
/// is stored and the accumulated numerator is kept untouched — no variant
/// resets phase state on a rate change. Keeping the numerator while the
/// denominator changes re-denominates the offset in seconds from
/// `n / old rate` to `n / rate`; only the integer-counting reading of phase
/// is preserved exactly.
pub open spec fn with_rate(s: Strategy, rate: u64) -> Strategy {
    match s {
        Strategy::Silence(p) => Strategy::Silence(p),
        Strategy::F32(p) => Strategy::F32(
            F32Processor { time_offset: p.time_offset, sample_rate: rate },
        ),
        Strategy::F64(p) => Strategy::F64(
            F64Processor { time_offset: p.time_offset, sample_rate: rate },
        ),
        Strategy::F32Wrapping(p) => Strategy::F32Wrapping(
            F32ProcessorWithWrapping { time_offset: p.time_offset, sample_rate: rate },
        ),
        Strategy::F64Wrapping(p) => Strategy::F64Wrapping(
            F64ProcessorWithWrapping { time_offset: p.time_offset, sample_rate: rate },
        ),
        Strategy::Integer(p) => Strategy::Integer(
            IntProcessor { samples: p.samples, sample_rate: rate },
        ),
    }
}

impl Strategy {
    pub fn get_id(&self) -> (id: i32)
        ensures
            id == strategy_id_spec(*self),
    {
        match self {
            Strategy::Silence(p) => p.get_id(),
            Strategy::F32(p) => p.get_id(),
            Strategy::F64(p) => p.get_id(),
            Strategy::F32Wrapping(p) => p.get_id(),
            Strategy::F64Wrapping(p) => p.get_id(),
            Strategy::Integer(p) => p.get_id(),
        }
    }

    /// Renders one block: every channel receives the same `frame_count`
    /// phase numerators, frame `i` carrying `block_phase(*old(self), i)`,
    /// and the state advances by exactly one block, once.
    pub fn process(&mut self, channels: usize, frame_count: usize) -> (out: Vec<Vec<u64>>)
        requires
            strategy_wf(*old(self)),
            can_render(*old(self), frame_count as int),
        ensures
            out@.len() == channels,
            forall|c: int| 0 <= c < channels ==> (#[trigger] out@[c])@.len() == frame_count,
            forall|c: int, i: int|
                0 <= c < channels && 0 <= i < frame_count ==> #[trigger] out@[c]@[i] == block_phase(
                    *old(self),
                    i,
                ),
            *final(self) == advanced(*old(self), frame_count as int),
            strategy_wf(*final(self)),
    {
        match self {
            Strategy::Silence(p) => p.process(channels, frame_count),
            Strategy::F32(p) => p.process(channels, frame_count),
            Strategy::F64(p) => p.process(channels, frame_count),
            Strategy::F32Wrapping(p) => p.process(channels, frame_count),
            Strategy::F64Wrapping(p) => p.process(channels, frame_count),
            Strategy::Integer(p) => p.process(channels, frame_count),
        }
    }

    pub fn set_sample_rate(&mut self, rate: u64)
        requires
            rate >= 1,
        ensures
            *final(self) == with_rate(*old(self), rate),
            strategy_wf(*final(self)),
    {
        match self {
            Strategy::Silence(p) => p.set_sample_rate(rate),
            Strategy::F32(p) => p.set_sample_rate(rate),
            Strategy::F64(p) => p.set_sample_rate(rate),
            Strategy::F32Wrapping(p) => p.set_sample_rate(rate),
            Strategy::F64Wrapping(p) => p.set_sample_rate(rate),
            Strategy::Integer(p) => p.set_sample_rate(rate),
        }
    }
}

/// Whether the numerators `a` and `b` denote the same output sample for
/// strategy `s`. For the integer strategy, numerators that agree modulo the
/// rate differ by a whole number of seconds, hence by a whole number of
/// carrier cycles, and so play identically; every other strategy's
/// numerators must agree exactly.
pub open spec fn phase_equiv(s: Strategy, a: int, b: int) -> bool {
    match s {
        Strategy::Integer(p) => a % (p.sample_rate as int) == b % (p.sample_rate as int),
        _ => a == b,
    }
}

/// Whether splitting a block after `k1` frames stays away from the wrap
/// boundary. Only the wrapping strategies are restricted: their committed
/// offset wraps once per block while the running value wraps once per
/// frame, so a split whose first part crosses the boundary may commit a
/// different offset than the single call would have reached.
pub open spec fn split_safe(s: Strategy, k1: int) -> bool {
    match s {
        Strategy::F32Wrapping(p) => p.time_offset + k1 < p.sample_rate,
        Strategy::F64Wrapping(p) => p.time_offset + k1 < p.sample_rate,
        _ => true,
    }
}

/// Continuity: rendering `k1 + k2` frames in one call produces, frame for
/// frame, the same tone as rendering `k1` frames and then `k2` frames in
/// two consecutive calls. Frame `i` of the second call denotes the same
/// sample as frame `k1 + i` of the single call, and both runs commit the
/// same final state. For the wrapping strategies this holds whenever the
/// first call stops short of the wrap boundary.
pub proof fn lemma_render_continuity(s: Strategy, k1: int, k2: int, i: int)
    requires
        strategy_wf(s),
        can_render(s, k1 + k2),
        split_safe(s, k1),
        0 <= k1,
        0 <= i < k2,
    ensures
        phase_equiv(s, block_phase(advanced(s, k1), i), block_phase(s, k1 + i)),
        advanced(advanced(s, k1), k2) == advanced(s, k1 + k2),
{
    match s {
        Strategy::Integer(p) => {
            let rate = p.sample_rate as int;
            lemma_mod_bound(p.samples + k1, rate);
            lemma_add_mod_noop_right(i, p.samples + k1, rate);
            lemma_add_mod_noop_right(k2, p.samples + k1, rate);
        },
        _ => {},
    }
}

/// Continuity for a wrapping strategy whose first call lands exactly on the
/// wrap boundary: the committed offset (reset to zero) then agrees with the
/// running per-frame value, so frame `i` of the second call carries the
/// same phase numerator as frame `k1 + i` of the single call. Only this
/// boundary case composes: a first call that crosses the boundary mid-block
/// commits zero while the running value has already moved on, so the
/// committed offsets of split and single runs drift apart even though each
/// block's own frames wrap correctly.
pub proof fn lemma_wrap_continuity_at_boundary(t0: int, rate: int, k1: int, k2: int, i: int)
    requires
        rate >= 1,
        0 <= t0 < rate,
        (t0 + k1) % rate == 0,
        0 <= k1,
        0 <= i < k2,
    ensures
        (spec_wrap_advance(t0, k1, rate) + i) % rate == (t0 + k1 + i) % rate,
{
    if t0 + k1 < rate {
        lemma_small_mod((t0 + k1) as nat, rate as nat);
    } else {
        lemma_add_mod_noop_right(i, t0 + k1, rate);
    }
}

} // verus!
