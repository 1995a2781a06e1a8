//! Generic signal-graph wiring.
//!
//! Any unit that can sit in the signal path implements one or more of the
//! capability traits below; the free functions then wire arbitrary pairs
//! of units together without knowing their concrete types.

use vstd::prelude::*;

use crate::host::HostCmd;
use crate::host::NodeId;
use crate::ProtocolError;

verus! {

/// A unit exposing a single source-facing input endpoint.
pub trait AudioInput {
    /// The input endpoint this unit exposes.
    spec fn input_spec(&self) -> NodeId;

    /// Returns the input endpoint.
    fn input(&self) -> (n: NodeId)
        ensures
            n == self.input_spec(),
    ;
}

/// A unit exposing a single sink-facing output endpoint.
pub trait AudioOutput {
    /// The output endpoint this unit exposes.
    spec fn output_spec(&self) -> NodeId;

    /// Returns the output endpoint.
    fn output(&self) -> (n: NodeId)
        ensures
            n == self.output_spec(),
    ;
}

/// A unit exposing an ordered sequence of input endpoints, addressed by
/// index.
pub trait AudioInputs {
    /// The input endpoints this unit exposes, in order.
    spec fn inputs_spec(&self) -> Seq<NodeId>;

    /// Returns the input endpoints, in order.
    fn inputs(&self) -> (v: Vec<NodeId>)
        ensures
            v@ == self.inputs_spec(),
    ;
}

/// Wires a producer's output endpoint to a consumer's input endpoint.
/// Whether the host accepts the connection is the host's to decide when
/// the command is replayed.
pub fn connect<F: AudioOutput, T: AudioInput>(from: &F, to: &T) -> (c: HostCmd)
    ensures
        c == (HostCmd::Connect { from: from.output_spec(), to: to.input_spec() }),
{
    HostCmd::Connect { from: from.output(), to: to.input() }
}

/// Wires a producer's output endpoint to the consumer input endpoint at
/// `at`. An index beyond the consumer's endpoints is a wiring bug, not a
/// runtime condition, and is refused outright; no command is produced for
/// it.
pub fn connect_to_one<F: AudioOutput, T: AudioInputs>(from: &F, to: &T, at: usize) -> (r: Result<
    HostCmd,
    ProtocolError,
>)
    ensures
        at < to.inputs_spec().len() ==> r == Ok::<HostCmd, ProtocolError>(
            HostCmd::Connect { from: from.output_spec(), to: to.inputs_spec()[at as int] },
        ),
        at >= to.inputs_spec().len() ==> r == Err::<HostCmd, ProtocolError>(
            ProtocolError::InputIndexOutOfRange,
        ),
{
    let inputs = to.inputs();
    if at < inputs.len() {
        Ok(HostCmd::Connect { from: from.output(), to: inputs[at] })
    } else {
        Err(ProtocolError::InputIndexOutOfRange)
    }
}

} // verus!
