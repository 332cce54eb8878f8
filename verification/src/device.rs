//! Device state machine: consumes movement-interrupt and periodic-tick
//! events, owns the movement tracker, drives the LED sequencer and exposes
//! the current state. Interrupt dispatch, flag clearing and the monotonic
//! clock are external collaborators: the entry points take the current
//! timestamp as a plain value.

use vstd::prelude::*;

verus! {

use crate::led::{Led, reset_transition, tick_transition, tick_finished};
use crate::movement::{Movement, window_after_move, window_after_eval, is_sustained};

/// The device-level states. `IndicatingExternalEvent` is reserved for a
/// secondary sensor and is an unimplemented stub: no handler accepts it.
#[derive(Clone, Copy, PartialEq, Eq, Structural, Debug)]
pub enum DeviceState {
    Sleeping,
    Monitoring,
    IndicatingSustainedMovement,
    IndicatingExternalEvent,
}

/// The coordinator: the current state, one movement tracker (created lazily
/// while monitoring) and one long-lived LED sequencer. A handler that fires
/// before a collaborator exists is a benign no-op.
pub struct Coordinator {
    state: DeviceState,
    tracker: Option<Movement>,
    led: Option<Led>,
}

impl Coordinator {
    /// The current device state.
    pub closed spec fn spec_state(&self) -> DeviceState {
        self.state
    }

    /// The movement tracker, absent until first needed.
    pub closed spec fn spec_tracker(&self) -> Option<Movement> {
        self.tracker
    }

    /// The LED sequencer, absent until installed at startup.
    pub closed spec fn spec_led(&self) -> Option<Led> {
        self.led
    }

    /// Well-formedness: whatever collaborators exist are well-formed.
    pub open spec fn wf(&self) -> bool {
        &&& (self.spec_tracker() matches Some(t) ==> t.wf())
        &&& (self.spec_led() matches Some(l) ==> l.wf())
    }

    /// A freshly booted device: asleep, with no collaborators yet.
    pub fn new() -> (c: Coordinator)
        ensures
            c.wf(),
            c.spec_state() == DeviceState::Sleeping,
            c.spec_tracker() is None,
            c.spec_led() is None,
    {
        Coordinator { state: DeviceState::Sleeping, tracker: None, led: None }
    }

    /// Install the long-lived LED sequencer.
    pub fn set_led(&mut self, led: Led)
        requires
            old(self).wf(),
            led.wf(),
        ensures
            final(self).wf(),
            final(self).spec_led() == Some(led),
            final(self).spec_state() == old(self).spec_state(),
            final(self).spec_tracker() == old(self).spec_tracker(),
    {
        self.led = Some(led);
    }

    /// The current device state, for external observers.
    pub fn state(&self) -> (s: DeviceState)
        ensures
            s == self.spec_state(),
    {
        self.state
    }

    /// Wake notification from the sleep controller: a sleeping device starts
    /// monitoring; in any other state waking changes nothing.
    pub fn on_wake(&mut self)
        requires
            old(self).wf(),
        ensures
            final(self).wf(),
            old(self).spec_state() == DeviceState::Sleeping ==> final(self).spec_state()
                == DeviceState::Monitoring,
            old(self).spec_state() != DeviceState::Sleeping ==> final(self).spec_state()
                == old(self).spec_state(),
            final(self).spec_tracker() == old(self).spec_tracker(),
            final(self).spec_led() == old(self).spec_led(),
    {
        if self.state == DeviceState::Sleeping {
            self.state = DeviceState::Monitoring;
        }
    }

    /// Movement-interrupt entry point: forwards the timestamp to the
    /// tracker. Firing before the tracker exists is a benign no-op.
    /// Timestamps must come from a monotonically non-decreasing clock.
    pub fn on_movement_interrupt(&mut self, now: u64)
        requires
            old(self).wf(),
            old(self).spec_tracker() matches Some(t) ==> (t.window() matches Some((_first, last))
                ==> now >= last),
        ensures
            final(self).wf(),
            final(self).spec_state() == old(self).spec_state(),
            final(self).spec_led() == old(self).spec_led(),
            old(self).spec_tracker() is None ==> *final(self) == *old(self),
            old(self).spec_tracker() matches Some(t) ==> (final(self).spec_tracker()
                matches Some(t2) && t2.window() == window_after_move(t.window(), now)),
    {
        if let Some(t) = &mut self.tracker {
            t.register_move(now);
        }
    }

    /// Periodic-tick entry point. While monitoring it creates the tracker on
    /// first use, evaluates the sustained-movement verdict and, when the
    /// verdict holds, transitions to the indication state and starts a fresh
    /// LED cycle. While indicating it paces the LED sequencer; the returned
    /// flag reports whether the sequencer declared its cycle complete on this
    /// tick, and what to do on completion is left to the caller.
    pub fn on_periodic_tick(&mut self, now: u64) -> (seq_done: bool)
        requires
            old(self).wf(),
            old(self).spec_state() != DeviceState::IndicatingExternalEvent,
        ensures
            final(self).wf(),
            seq_done == (old(self).spec_state() == DeviceState::IndicatingSustainedMovement
                && (old(self).spec_led() matches Some(l) && tick_finished(l))),
            old(self).spec_state() == DeviceState::Sleeping ==> *final(self) == *old(self),
            (old(self).spec_state() == DeviceState::Monitoring && old(self).spec_tracker()
                is None) ==> ({
                &&& final(self).spec_state() == DeviceState::Monitoring
                &&& final(self).spec_led() == old(self).spec_led()
                &&& (final(self).spec_tracker() matches Some(t) && t.window() is None)
            }),
            old(self).spec_state() == DeviceState::Monitoring ==> (old(self).spec_tracker()
                matches Some(t) ==> (
                if is_sustained(t.window()) {
                    &&& final(self).spec_state() == DeviceState::IndicatingSustainedMovement
                    &&& (final(self).spec_tracker() matches Some(t2) && t2.window()
                        == t.window())
                    &&& (old(self).spec_led() matches Some(l) ==> (final(self).spec_led()
                        matches Some(l2) && reset_transition(l, l2)))
                    &&& (old(self).spec_led() is None ==> final(self).spec_led() is None)
                } else {
                    &&& final(self).spec_state() == DeviceState::Monitoring
                    &&& final(self).spec_led() == old(self).spec_led()
                    &&& (final(self).spec_tracker() matches Some(t2) && t2.window()
                        == window_after_eval(t.window(), now))
                }
            )),
            old(self).spec_state() == DeviceState::IndicatingSustainedMovement ==> ({
                &&& final(self).spec_state() == old(self).spec_state()
                &&& final(self).spec_tracker() == old(self).spec_tracker()
                &&& (old(self).spec_led() matches Some(l) ==> (final(self).spec_led()
                    matches Some(l2) && tick_transition(l, l2)))
                &&& (old(self).spec_led() is None ==> *final(self) == *old(self))
            }),
    {
        match self.state {
            DeviceState::Sleeping => {
                // reached right after coming out of sleep; nothing to do
                false
            }
            DeviceState::Monitoring => {
                match &mut self.tracker {
                    Some(t) => {
                        if t.is_10s_movement(now) {
                            self.state = DeviceState::IndicatingSustainedMovement;
                            if let Some(l) = &mut self.led {
                                l.reset();
                            }
                        }
                    }
                    None => {
                        self.tracker = Some(Movement::new());
                    }
                }
                false
            }
            DeviceState::IndicatingSustainedMovement => {
                if let Some(l) = &mut self.led {
                    l.tick()
                } else {
                    false
                }
            }
            DeviceState::IndicatingExternalEvent => {
                // reserved for the secondary sensor; excluded by the
                // precondition until the transition is designed
                vstd::pervasive::unreached()
            }
        }
    }
}

} // verus!
