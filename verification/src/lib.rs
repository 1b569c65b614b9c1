//! A verified core for a fixed-frequency sine-tone generator.
//!
//! The library models the oscillator family of a small synthesizer: six
//! interchangeable generation strategies (silence, two unbounded phase
//! accumulators, two wrapping accumulators, and a modulo sample counter),
//! together with a selector that swaps the active strategy by preset index.
//!
//! Phase state is kept exactly, as a whole number of frames over the sample
//! rate: the phase of a frame with numerator `n` at rate `r` is `n / r`
//! seconds. The host adapter converts each numerator to seconds at its own
//! output precision and evaluates the sine there; everything the core decides
//! (how phase advances, when it wraps, which strategy is active, what a
//! preset is called) is verified here.
//!
//! A rate change swaps only the denominator: no strategy resets its stored
//! numerator, so the offset read in seconds, `n / r`, jumps when `r` does.
//! This is the integer-counting reading of phase state; a continuous-time
//! accumulator would instead carry its seconds across the change. A wrapping
//! strategy whose numerator sits at or above a lowered rate renders that
//! offset unwrapped for one frame and wraps to zero at the next step, as its
//! per-sample policy prescribes.

use vstd::prelude::*;

mod selector;
mod strategy;

pub use selector::{
    get_preset_name, lemma_unknown_preset_is_silence, preset_name_spec, strategy_for_preset,
    strategy_has_rate, Selector, DEFAULT_SAMPLE_RATE,
};
pub use strategy::{
    advanced, block_phase, can_render, lemma_render_continuity, lemma_wrap_continuity_at_boundary,
    lemma_wrap_step, lemma_wrapped_run_in_cycle, phase_equiv, spec_wrap_advance, spec_wrapped_run,
    split_safe, strategy_id_spec, strategy_wf, with_rate, F32Processor,
    F32ProcessorWithWrapping, F64Processor, F64ProcessorWithWrapping, IntProcessor, Silence,
    Strategy,
};

verus! {

/// The number of cycles the carrier completes each second. Because it is a
/// whole number, two phase numerators that are congruent modulo the sample
/// rate denote the same output sample: they differ by a whole number of
/// seconds, hence by a whole number of carrier cycles.
pub const CARRIER_HZ: u64 = 440;

} // verus!
