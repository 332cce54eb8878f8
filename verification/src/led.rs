//! LED indication sequencer: converts a start command into a finite series of
//! on/off toggles, slowed down by a configurable tick divider.

use vstd::prelude::*;

verus! {

/// A finite blink sequence. One indication cycle consists of
/// `nbr_toggles` on/off edges; only every `divider + 1`-th pacing tick
/// advances the sequence, which slows the blinking down.
pub struct Led {
    nbr_toggles: u8,
    current_toggle: u8,
    // used to scale down the led toggling, making it blink slower
    divider: u8,
    divider_current_cycle: u8,
}

impl Led {
    /// Total number of on/off edges in one indication cycle.
    pub closed spec fn total_toggles(&self) -> u8 {
        self.nbr_toggles
    }

    /// How many edges of the current cycle have been issued.
    pub closed spec fn toggles_done(&self) -> u8 {
        self.current_toggle
    }

    /// How many pacing ticks are swallowed between consecutive edges.
    pub closed spec fn tick_divider(&self) -> u8 {
        self.divider
    }

    /// Position within the current pacing period.
    pub closed spec fn divider_counter(&self) -> u8 {
        self.divider_current_cycle
    }

    /// Well-formedness: the edge count never exceeds the cycle's total and
    /// the pacing counter never runs past the divider.
    pub open spec fn wf(&self) -> bool {
        &&& self.toggles_done() <= self.total_toggles()
        &&& self.divider_counter() <= self.tick_divider()
        &&& self.tick_divider() >= 1
    }

    pub fn new(nbr_blinks: u8, divider: u8) -> (led: Led)
        requires
            nbr_blinks <= 127,
            divider >= 1,
        ensures
            led.wf(),
            led.total_toggles() == 2 * nbr_blinks,
            led.toggles_done() == 0,
            led.tick_divider() == divider,
            led.divider_counter() == 0,
    {
        Led { nbr_toggles: nbr_blinks * 2, current_toggle: 0, divider, divider_current_cycle: 0 }
    }

    /// Begin a fresh indication cycle: the edge count starts over, the pacing
    /// counter is left as it is.
    pub fn reset(&mut self)
        requires
            old(self).wf(),
        ensures
            final(self).wf(),
            reset_transition(*old(self), *final(self)),
    {
        self.current_toggle = 0;
    }

    /// Advance the pacing counter by one tick, issuing at most one edge.
    /// Returns true exactly when the toggling cycle has already ended: the
    /// call would have issued an edge but none are left.
    pub fn tick(&mut self) -> (done: bool)
        requires
            old(self).wf(),
        ensures
            final(self).wf(),
            tick_transition(*old(self), *final(self)),
            done == tick_finished(*old(self)),
    {
        if self.divider_current_cycle < self.divider {
            self.divider_current_cycle += 1;
        } else {
            self.divider_current_cycle = 0;
            if self.current_toggle < self.nbr_toggles {
                self.current_toggle += 1;
            } else {
                return true;
            }
        }
        false
    }
}

/// How `reset` rewrites a sequencer: the edge count starts over and nothing
/// else moves.
pub open spec fn reset_transition(pre: Led, post: Led) -> bool {
    &&& post.toggles_done() == 0
    &&& post.total_toggles() == pre.total_toggles()
    &&& post.tick_divider() == pre.tick_divider()
    &&& post.divider_counter() == pre.divider_counter()
}

/// How one pacing tick rewrites a sequencer: while the pacing counter is
/// below the divider it only advances; otherwise the counter wraps to zero
/// and one edge is issued, unless the cycle is already complete.
pub open spec fn tick_transition(pre: Led, post: Led) -> bool {
    &&& post.total_toggles() == pre.total_toggles()
    &&& post.tick_divider() == pre.tick_divider()
    &&& if pre.divider_counter() < pre.tick_divider() {
            &&& post.divider_counter() == pre.divider_counter() + 1
            &&& post.toggles_done() == pre.toggles_done()
        } else {
            &&& post.divider_counter() == 0
            &&& post.toggles_done() == (
                if pre.toggles_done() < pre.total_toggles() {
                    pre.toggles_done() + 1
                } else {
                    pre.toggles_done() as int
                }
            )
        }
}

/// Whether a pacing tick taken in state `pre` reports the cycle as complete:
/// the tick lands on the divider boundary and every edge has been issued.
pub open spec fn tick_finished(pre: Led) -> bool {
    pre.divider_counter() >= pre.tick_divider() && pre.toggles_done() >= pre.total_toggles()
}

} // verus!
