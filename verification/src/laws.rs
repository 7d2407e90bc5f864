//! Properties the controller guarantees, stated and proved over the same
//! spec functions its contracts use.

use vstd::prelude::*;

use crate::machine::{after_set_power, emitted_mode, next_phase, step_state, Controller, Event};
use crate::power::{command_seq, PowerMode};

verus! {

/// Idempotent power commands: asserting the same mode twice in a row
/// leaves the same logical controller state as asserting it once, even
/// though the wire requests are reissued.
pub proof fn lemma_set_power_idempotent(c: Controller, mode: PowerMode)
    ensures
        after_set_power(after_set_power(c, mode), mode) == after_set_power(c, mode),
{
}

/// Full-set coverage, on removal: pruning an output from the known set
/// excludes it from every later transition's commands — no command of a
/// transition planned over the pruned set targets it.
pub proof fn lemma_removed_output_excluded(
    outs: Seq<u32>,
    name: u32,
    mode: PowerMode,
    kept: Seq<u32>,
    i: int,
)
    requires
        kept == outs.filter(|o: u32| o != name),
        0 <= i < command_seq(kept, mode).len(),
    ensures
        command_seq(kept, mode)[i].output != name,
{
    outs.lemma_filter_pred(|o: u32| o != name, i);
}

/// Tolerance of a misbehaving idle source: an idle signal that arrives
/// after the outputs were already powered off is ignored — no commands,
/// no state change.
pub proof fn lemma_duplicate_idled_ignored(c: Controller, now: u64)
    requires
        c.phase is Off,
    ensures
        emitted_mode(c, Event::Idled, now) is None,
        step_state(c, Event::Idled, now) == c,
{
}

/// Alternation at the wire: the machine never issues two power-off
/// transitions in a row. Once a step has emitted power-off, the very next
/// step emits either nothing or power-on, whatever event the idle source
/// delivers — so two consecutive offs without an intervening on are
/// impossible, even if the source itself violates alternation.
pub proof fn lemma_no_consecutive_off(c: Controller, e1: Event, t1: u64, e2: Event, t2: u64)
    ensures
        emitted_mode(c, e1, t1) == Some(PowerMode::Off) ==> emitted_mode(
            step_state(c, e1, t1),
            e2,
            t2,
        ) != Some(PowerMode::Off),
{
    if emitted_mode(c, e1, t1) == Some(PowerMode::Off) {
        assert(next_phase(c, e1, t1) is Off);
    }
}

/// A power-off is emitted only while the outputs are not already off: the
/// phases that can emit it are waiting-for-idle and the debounce wait.
pub proof fn lemma_off_only_before_off(c: Controller, ev: Event, now: u64)
    ensures
        emitted_mode(c, ev, now) == Some(PowerMode::Off) ==> c.phase is WaitingForIdle
            || c.phase is DebounceWait,
{
}

} // verus!
