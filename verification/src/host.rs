//! Commands addressed to the external rendering host.
//!
//! The host owns the actual processing units; this crate only decides what
//! should happen to them. Each public operation therefore returns a list
//! of [`HostCmd`] values describing node creation, wiring, transport, and
//! parameter automation. Times are offsets from the host clock's "now" in
//! milliseconds, and levels are fixed-point thousandths.

use vstd::prelude::*;

verus! {

/// Identity of one processing unit owned by the host.
#[derive(Clone, Copy, PartialEq, Eq, Structural, Debug)]
pub struct NodeId(pub u64);

/// Which automatable parameter of a node a command addresses.
#[derive(Clone, Copy, PartialEq, Eq, Structural, Debug)]
pub enum ParamKind {
    /// A gain unit's amplification factor.
    Gain,
    /// An oscillator's or filter's base frequency.
    Frequency,
    /// A detune offset in cents.
    Detune,
    /// A filter's quality factor.
    QFactor,
}

/// One automatable parameter: a node together with one of its parameters.
#[derive(Clone, Copy, PartialEq, Eq, Structural, Debug)]
pub struct ParamAddr {
    pub node: NodeId,
    pub param: ParamKind,
}

/// Oscillator waveform shapes.
#[derive(Clone, Copy, PartialEq, Eq, Structural, Debug)]
pub enum Waveform {
    Sine,
    Square,
    Sawtooth,
    Triangle,
}

/// Filter response shapes.
#[derive(Clone, Copy, PartialEq, Eq, Structural, Debug)]
pub enum FilterMode {
    Lowpass,
    Highpass,
    Bandpass,
    Lowshelf,
    Highshelf,
    Peaking,
    Notch,
    Allpass,
}

/// One instruction for the rendering host.
///
/// Automation values are fixed-point thousandths; times are millisecond
/// offsets from the host clock's current time.
#[derive(Clone, Copy, PartialEq, Eq, Structural, Debug)]
pub enum HostCmd {
    /// Create an oscillator unit under the given identity.
    CreateOscillator { node: NodeId },
    /// Create a gain unit under the given identity.
    CreateGain { node: NodeId },
    /// Create a filter unit under the given identity.
    CreateFilter { node: NodeId },
    /// Wire one unit's output into another unit's input.
    Connect { from: NodeId, to: NodeId },
    /// Wire a unit's output into the host's final output sink.
    ConnectToDestination { from: NodeId },
    /// Begin continuous generation on an oscillator unit.
    Start { node: NodeId },
    /// End continuous generation on an oscillator unit.
    Stop { node: NodeId },
    /// Apply a waveform shape to an oscillator unit.
    SetWaveform { node: NodeId, waveform: Waveform },
    /// Apply a response shape to a filter unit.
    SetFilterMode { node: NodeId, mode: FilterMode },
    /// Drop every automation already scheduled on a parameter.
    Cancel { param: ParamAddr },
    /// Schedule an immediate set of a parameter to a value.
    SetValue { param: ParamAddr, value: i64, at_ms: u64 },
    /// Re-anchor a parameter at whatever value it holds right now; used to
    /// keep a curve continuous after a cancellation.
    SnapToCurrent { param: ParamAddr },
    /// Ramp a parameter linearly so that it reaches `target` at `at_ms`.
    RampTo { param: ParamAddr, target: i64, at_ms: u64 },
    /// From `at_ms` on, approach `target` exponentially with the given
    /// time constant, never quite reaching it.
    ApproachTarget { param: ParamAddr, target: i64, at_ms: u64, time_const_ms: u64 },
}

/// Hands out fresh node identities for the units this crate asks the host
/// to create.
#[derive(Clone, Copy, PartialEq, Eq, Structural, Debug)]
pub struct AudioGraph {
    pub next_node: u64,
}

impl AudioGraph {
    /// An allocator that has issued no identity yet.
    pub fn new() -> (g: AudioGraph)
        ensures
            g.next_node == 0,
    {
        AudioGraph { next_node: 0 }
    }

    /// Issues the next unused node identity.
    pub fn fresh(&mut self) -> (n: NodeId)
        requires
            old(self).next_node < u64::MAX,
        ensures
            n == (NodeId { 0: old(self).next_node }),
            final(self).next_node == old(self).next_node + 1,
    {
        let n = NodeId(self.next_node);
        self.next_node = self.next_node + 1;
        n
    }
}

} // verus!
