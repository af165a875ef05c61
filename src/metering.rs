//! Loudness metering: turns per-channel amplitude readings from the two
//! loudness probes into a smooth, display-ready envelope.
//!
//! Amplitudes are linear and fixed point: `FULL_SCALE` stands for 1.0.
use vstd::prelude::*;
use crate::text::same_text;
use crate::graph::{Name, name_of};

verus! {

/// Linear amplitude of a full-scale signal (1.0).
pub const FULL_SCALE: u32 = 1_000_000;

/// Name of the loudness probe on the mixed output.
pub const OUTPUT_LEVEL: &'static str = "output_level";

/// Name of the loudness probe on the microphone branch.
pub const MIC_LEVEL: &'static str = "mic_level";

/// What is left of a published value one tick later: 95% of it, rounded up,
/// so that a value never falls by more than 5% per tick.
pub open spec fn decay_floor(prev: int) -> int {
    (prev * 95 + 99) / 100
}

/// The envelope: an increase shows at once, a decrease at most 5% per tick.
pub open spec fn envelope(amplitude: int, prev: int) -> int {
    if amplitude >= decay_floor(prev) {
        amplitude
    } else {
        decay_floor(prev)
    }
}

/// A published level falls by at most 5% from one tick to the next, follows
/// any louder reading at once, and never rises above the louder of the
/// reading and the previous level.
pub proof fn lemma_envelope_release(amplitude: u32, prev: u32)
    ensures
        100 * envelope(amplitude as int, prev as int) >= 95 * prev,
        envelope(amplitude as int, prev as int) >= amplitude,
        envelope(amplitude as int, prev as int) <= if amplitude >= prev { amplitude as int } else { prev as int },
        amplitude >= decay_floor(prev as int) ==> envelope(amplitude as int, prev as int) == amplitude,
{
}

/// One step of the envelope for a single channel.
pub fn next_level(amplitude: u32, prev: u32) -> (r: u32)
    ensures
        r == envelope(amplitude as int, prev as int),
{
    let floor: u64 = (prev as u64 * 95 + 99) / 100;
    assert(floor <= prev);
    if amplitude as u64 >= floor {
        amplitude
    } else {
        floor as u32
    }
}

/// The two loudness probes carry the names the graph gives them, so their
/// measurements reach their own channels.
pub proof fn lemma_probe_names()
    ensures
        source_named(name_of(Name::OutputLevel)@) == Some(LevelSource::Output),
        source_named(name_of(Name::MicLevel)@) == Some(LevelSource::Mic),
{
    reveal_strlit("output_level");
    reveal_strlit("mic_level");
    assert(name_of(Name::MicLevel)@ == MIC_LEVEL@);
    assert(MIC_LEVEL@.len() != OUTPUT_LEVEL@.len());
}

/// The probe a measurement came from.
#[derive(Clone, Copy, Debug, PartialEq, Eq, Structural)]
pub enum LevelSource {
    Output,
    Mic,
}

/// The probe named `name`, if it is one of the two.
pub open spec fn source_named(name: Seq<char>) -> Option<LevelSource> {
    if name == OUTPUT_LEVEL@ {
        Some(LevelSource::Output)
    } else if name == MIC_LEVEL@ {
        Some(LevelSource::Mic)
    } else {
        None
    }
}

/// Which loudness probe carries the element name `name`.
pub fn source_of(name: &str) -> (r: Option<LevelSource>)
    ensures
        r == source_named(name@),
{
    if same_text(name, OUTPUT_LEVEL) {
        Some(LevelSource::Output)
    } else if same_text(name, MIC_LEVEL) {
        Some(LevelSource::Mic)
    } else {
        None
    }
}

/// A stereo pair of linear amplitudes.
#[derive(Clone, Copy, Debug, PartialEq, Eq, Structural)]
pub struct Levels {
    pub left: u32,
    pub right: u32,
}

/// A stereo pair to publish on the metering channel of `source`.
#[derive(Clone, Copy, Debug, PartialEq, Eq, Structural)]
pub struct LevelUpdate {
    pub source: LevelSource,
    pub levels: Levels,
}

/// The last published stereo pair of each probe.
#[derive(Clone, Copy, Debug, PartialEq, Eq, Structural)]
pub struct Meter {
    pub output: Levels,
    pub mic: Levels,
}

impl Meter {
    /// Both probes start silent.
    pub fn new() -> (r: Meter)
        ensures
            r.output == (Levels { left: 0, right: 0 }),
            r.mic == (Levels { left: 0, right: 0 }),
    {
        Meter { output: Levels { left: 0, right: 0 }, mic: Levels { left: 0, right: 0 } }
    }

    /// The last published pair of `source`.
    pub open spec fn last_of(self, source: LevelSource) -> Levels {
        match source {
            LevelSource::Output => self.output,
            LevelSource::Mic => self.mic,
        }
    }

    /// The last published pair of `source`.
    pub fn levels(&self, source: LevelSource) -> (r: Levels)
        ensures
            r == self.last_of(source),
    {
        match source {
            LevelSource::Output => self.output,
            LevelSource::Mic => self.mic,
        }
    }

    /// Takes one measurement of `source`, one amplitude per channel, and
    /// returns the pair to publish. A measurement with fewer than two
    /// channels is malformed: it is dropped and nothing changes.
    pub fn measure(&mut self, source: LevelSource, amplitudes: &Vec<u32>) -> (r: Option<LevelUpdate>)
        ensures
            amplitudes@.len() < 2 ==> r is None && *final(self) == *old(self),
            amplitudes@.len() >= 2 ==> {
                let prev = old(self).last_of(source);
                let left = envelope(amplitudes@[0] as int, prev.left as int);
                let right = envelope(amplitudes@[1] as int, prev.right as int);
                &&& r == Some((LevelUpdate { source, levels: (Levels { left: left as u32, right: right as u32 }) }))
                &&& final(self).last_of(source) == (Levels { left: left as u32, right: right as u32 })
                &&& forall|s: LevelSource| s != source ==> final(self).last_of(s) == old(self).last_of(s)
            },
    {
        if amplitudes.len() < 2 {
            return None;
        }
        let prev = self.levels(source);
        let left = next_level(amplitudes[0], prev.left);
        let right = next_level(amplitudes[1], prev.right);
        let levels = Levels { left, right };
        match source {
            LevelSource::Output => self.output = levels,
            LevelSource::Mic => self.mic = levels,
        }
        Some(LevelUpdate { source, levels })
    }

    /// Takes one measurement event from the element named `name`. Events of
    /// other elements are ignored, as are malformed ones.
    pub fn measure_named(&mut self, name: &str, amplitudes: &Vec<u32>) -> (r: Option<LevelUpdate>)
        ensures
            amplitudes@.len() < 2 || source_named(name@) is None ==> r is None && *final(self) == *old(self),
            amplitudes@.len() >= 2 && source_named(name@) is Some ==> {
                let source = source_named(name@)->Some_0;
                let prev = old(self).last_of(source);
                let left = envelope(amplitudes@[0] as int, prev.left as int);
                let right = envelope(amplitudes@[1] as int, prev.right as int);
                &&& r == Some((LevelUpdate { source, levels: (Levels { left: left as u32, right: right as u32 }) }))
                &&& final(self).last_of(source) == (Levels { left: left as u32, right: right as u32 })
                &&& forall|s: LevelSource| s != source ==> final(self).last_of(s) == old(self).last_of(s)
            },
    {
        match source_of(name) {
            Some(source) => self.measure(source, amplitudes),
            None => None,
        }
    }
}

/// An event drained from the graph's message stream.
#[derive(Clone, Debug)]
pub enum BusEvent {
    /// A loudness measurement posted by the element named `element`, one
    /// linear amplitude per channel.
    Measurement { element: String, amplitudes: Vec<u32> },
    /// The graph has ended its stream.
    EndOfStream,
    /// The graph reported an unrecoverable error.
    Error,
    /// Any other message.
    Other,
}

/// What the event consumer does after one event.
#[derive(Clone, Copy, Debug, PartialEq, Eq, Structural)]
pub enum ConsumerAction {
    /// Publish the pair on the metering channel of its source.
    Publish(LevelUpdate),
    /// Nothing to do; keep draining.
    Continue,
    /// Stop draining and bring the graph down.
    Stop,
    /// Bring the graph down and end the session as failed.
    Fatal,
}

impl Meter {
    /// Decides what the event consumer does with `event`.
    pub fn on_event(&mut self, event: &BusEvent) -> (r: ConsumerAction)
        ensures
            match event {
                BusEvent::Measurement { element, amplitudes } => {
                    if amplitudes@.len() >= 2 && source_named(element@) is Some {
                        let source = source_named(element@)->Some_0;
                        let prev = old(self).last_of(source);
                        let levels = Levels {
                            left: envelope(amplitudes@[0] as int, prev.left as int) as u32,
                            right: envelope(amplitudes@[1] as int, prev.right as int) as u32,
                        };
                        &&& r == ConsumerAction::Publish(LevelUpdate { source, levels })
                        &&& final(self).last_of(source) == levels
                        &&& forall|s: LevelSource| s != source ==> final(self).last_of(s) == old(self).last_of(s)
                    } else {
                        r == ConsumerAction::Continue && *final(self) == *old(self)
                    }
                },
                BusEvent::EndOfStream => r == ConsumerAction::Stop && *final(self) == *old(self),
                BusEvent::Error => r == ConsumerAction::Fatal && *final(self) == *old(self),
                BusEvent::Other => r == ConsumerAction::Continue && *final(self) == *old(self),
            },
    {
        match event {
            BusEvent::Measurement { element, amplitudes } => {
                match self.measure_named(element.as_str(), amplitudes) {
                    Some(update) => ConsumerAction::Publish(update),
                    None => ConsumerAction::Continue,
                }
            },
            BusEvent::EndOfStream => ConsumerAction::Stop,
            BusEvent::Error => ConsumerAction::Fatal,
            BusEvent::Other => ConsumerAction::Continue,
        }
    }
}

} // verus!
