//! Power controller: plans the per-output power-state commands.
//!
//! A power transition targets the full current known-output set every time.
//! Each command stands for one single-use power-control session on one
//! output: create it, set the mode, release it.

use vstd::prelude::*;

verus! {

/// A power state asserted on an output: the display is driven on or off.
#[derive(Clone, Copy, PartialEq, Eq, Structural, Debug)]
pub enum PowerMode {
    On,
    Off,
}

/// One wire-level power request: set `output` (identified by its registry
/// name) to `mode` through a fresh single-use power-control session.
#[derive(Clone, Copy, PartialEq, Eq, Structural, Debug)]
pub struct PowerCommand {
    pub output: u32,
    pub mode: PowerMode,
}

/// The commands a power transition to `mode` issues over the outputs `outs`:
/// one per known output, in advertisement order.
pub open spec fn command_seq(outs: Seq<u32>, mode: PowerMode) -> Seq<PowerCommand> {
    Seq::new(outs.len(), |i: int| PowerCommand { output: outs[i], mode })
}

/// Plan a power transition: one command per currently known output, covering
/// the full set, in order.
pub fn power_commands(outputs: &Vec<u32>, mode: PowerMode) -> (cmds: Vec<PowerCommand>)
    ensures
        cmds@ == command_seq(outputs@, mode),
{
    let mut cmds: Vec<PowerCommand> = Vec::new();
    let mut i: usize = 0;
    while i < outputs.len()
        invariant
            i <= outputs@.len(),
            cmds@ == command_seq(outputs@.subrange(0, i as int), mode),
        decreases outputs@.len() - i,
    {
        cmds.push(PowerCommand { output: outputs[i], mode });
        assert(command_seq(outputs@.subrange(0, i + 1 as int), mode) =~= command_seq(
            outputs@.subrange(0, i as int),
            mode,
        ).push(PowerCommand { output: outputs@[i as int], mode }));
        i = i + 1;
    }
    assert(outputs@.subrange(0, outputs@.len() as int) =~= outputs@);
    cmds
}

} // verus!
