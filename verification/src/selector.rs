//! The generator selector: owns the single active strategy, forwards
//! rendering and rate changes to it, and swaps it for another variant on a
//! preset change.

use crate::strategy::{
    advanced, block_phase, can_render, strategy_id_spec, strategy_wf, with_rate, F32Processor,
    F32ProcessorWithWrapping, F64Processor, F64ProcessorWithWrapping, IntProcessor, Silence,
    Strategy,
};
use vstd::prelude::*;
use vstd::string::StringExecFns;

verus! {

/// The rate every selector starts from until the host announces another.
pub const DEFAULT_SAMPLE_RATE: u64 = 44100;

/// The strategy a preset index selects, freshly constructed at rate `rate`:
/// the mapping is total, and every index outside the six known presets
/// falls back to silence.
pub open spec fn strategy_for_preset(index: int, rate: u64) -> Strategy {
    if index == 1 {
        Strategy::F32(F32Processor { time_offset: 0, sample_rate: rate })
    } else if index == 2 {
        Strategy::F64(F64Processor { time_offset: 0, sample_rate: rate })
    } else if index == 3 {
        Strategy::F32Wrapping(F32ProcessorWithWrapping { time_offset: 0, sample_rate: rate })
    } else if index == 4 {
        Strategy::F64Wrapping(F64ProcessorWithWrapping { time_offset: 0, sample_rate: rate })
    } else if index == 5 {
        Strategy::Integer(IntProcessor { samples: 0, sample_rate: rate })
    } else {
        Strategy::Silence(Silence {  })
    }
}

/// Every preset index outside the six known presets selects the silence
/// strategy, whose identity equals silence's id; there is no failing index.
pub proof fn lemma_unknown_preset_is_silence(index: int, rate: u64)
    requires
        !(0 <= index <= 5),
    ensures
        strategy_for_preset(index, rate) is Silence,
        strategy_id_spec(strategy_for_preset(index, rate)) == 0,
{
}

/// The rate a strategy carries, where it carries one: the selector keeps it
/// equal to its own tracked rate.
pub open spec fn strategy_has_rate(s: Strategy, rate: u64) -> bool {
    match s {
        Strategy::Silence(_) => true,
        Strategy::F32(p) => p.sample_rate == rate,
        Strategy::F64(p) => p.sample_rate == rate,
        Strategy::F32Wrapping(p) => p.sample_rate == rate,
        Strategy::F64Wrapping(p) => p.sample_rate == rate,
        Strategy::Integer(p) => p.sample_rate == rate,
    }
}

/// Owns exactly one active generator strategy and the rate used to
/// construct the next one.
pub struct Selector {
    /// The single active strategy; replacing it discards its phase state.
    pub active: Strategy,
    /// The selector's own record of the host's rate, the source of truth
    /// when a preset change constructs a new strategy.
    pub sample_rate: u64,
}

impl Selector {
    /// A positive tracked rate, a well-formed active strategy, and
    /// agreement between the tracked rate and the one the strategy stores.
    pub open spec fn wf(self) -> bool {
        self.sample_rate >= 1 && strategy_wf(self.active) && strategy_has_rate(
            self.active,
            self.sample_rate,
        )
    }

    /// Starts with the integer-counting strategy, as the default
    /// configuration does.
    pub fn new(rate: u64) -> (s: Selector)
        requires
            rate >= 1,
        ensures
            s == (Selector {
                active: Strategy::Integer(IntProcessor { samples: 0, sample_rate: rate }),
                sample_rate: rate,
            }),
            s.wf(),
    {
        Selector { active: Strategy::Integer(IntProcessor::new(rate)), sample_rate: rate }
    }

    /// Installs the strategy the preset index selects, freshly constructed
    /// at the tracked rate; the previous strategy and its phase state are
    /// discarded. Any index outside the six known presets installs silence.
    pub fn select_strategy(&mut self, index: i32)
        requires
            old(self).sample_rate >= 1,
        ensures
            final(self).sample_rate == old(self).sample_rate,
            final(self).active == strategy_for_preset(index as int, old(self).sample_rate),
            final(self).wf(),
    {
        match index {
            0 => self.active = Strategy::Silence(Silence::new()),
            1 => self.active = Strategy::F32(F32Processor::new(self.sample_rate)),
            2 => self.active = Strategy::F64(F64Processor::new(self.sample_rate)),
            3 => self.active = Strategy::F32Wrapping(
                F32ProcessorWithWrapping::new(self.sample_rate),
            ),
            4 => self.active = Strategy::F64Wrapping(
                F64ProcessorWithWrapping::new(self.sample_rate),
            ),
            5 => self.active = Strategy::Integer(IntProcessor::new(self.sample_rate)),
            _ => self.active = Strategy::Silence(Silence::new()),
        }
    }

    /// Reports the identity of the strategy that is active right now.
    pub fn current_strategy_id(&self) -> (id: i32)
        ensures
            id == strategy_id_spec(self.active),
    {
        self.active.get_id()
    }

    /// Records the new rate and forwards it to the active strategy, so the
    /// two stay consistent. The strategy's phase state is never reset: it
    /// keeps its stored numerator, whose reading in seconds is thereby
    /// re-denominated to the new rate.
    pub fn on_sample_rate_changed(&mut self, rate: u64)
        requires
            rate >= 1,
        ensures
            final(self).sample_rate == rate,
            final(self).active == with_rate(old(self).active, rate),
            final(self).wf(),
    {
        self.sample_rate = rate;
        self.active.set_sample_rate(rate);
    }

    /// Renders one block through the active strategy: every channel
    /// receives the same phase numerators, frame `i` carrying
    /// `block_phase(old(self).active, i)`, and only the strategy's state
    /// advances.
    pub fn process(&mut self, channels: usize, frame_count: usize) -> (out: Vec<Vec<u64>>)
        requires
            old(self).wf(),
            can_render(old(self).active, frame_count as int),
        ensures
            out@.len() == channels,
            forall|c: int| 0 <= c < channels ==> (#[trigger] out@[c])@.len() == frame_count,
            forall|c: int, i: int|
                0 <= c < channels && 0 <= i < frame_count ==> #[trigger] out@[c]@[i] == block_phase(
                    old(self).active,
                    i,
                ),
            final(self).active == advanced(old(self).active, frame_count as int),
            final(self).sample_rate == old(self).sample_rate,
            final(self).wf(),
    {
        self.active.process(channels, frame_count)
    }
}

impl Default for Selector {
    /// The default selector: the integer-counting strategy at 44100 frames
    /// per second.
    fn default() -> (s: Selector)
        ensures
            s == (Selector {
                active: Strategy::Integer(
                    IntProcessor { samples: 0, sample_rate: DEFAULT_SAMPLE_RATE },
                ),
                sample_rate: DEFAULT_SAMPLE_RATE,
            }),
            s.wf(),
    {
        Selector::new(DEFAULT_SAMPLE_RATE)
    }
}

/// The name of the preset at index `index`.
pub open spec fn preset_name_spec(index: int) -> Seq<char> {
    if index == 1 {
        "32 bit float"@
    } else if index == 2 {
        "64 bit float"@
    } else if index == 3 {
        "32 bit float with wrapping"@
    } else if index == 4 {
        "64 bit float with wrapping"@
    } else if index == 5 {
        "Integer: counting samples"@
    } else {
        "Silence"@
    }
}

/// Looks a preset's display name up: a pure table over the six known
/// presets, and `"Silence"` for every other index.
pub fn get_preset_name(preset: i32) -> (name: String)
    ensures
        name@ == preset_name_spec(preset as int),
{
    let s: &str = match preset {
        0 => "Silence",
        1 => "32 bit float",
        2 => "64 bit float",
        3 => "32 bit float with wrapping",
        4 => "64 bit float with wrapping",
        5 => "Integer: counting samples",
        _ => "Silence",
    };
    String::from_str(s)
}

} // verus!
