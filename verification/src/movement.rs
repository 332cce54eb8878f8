//! Movement tracker: records the timestamps of discrete movement interrupts
//! and decides whether movement has been sustained long enough, or whether an
//! open movement episode has gone stale and should be abandoned.
//!
//! Timestamps are milliseconds read from a monotonic clock; the clock itself
//! is an external collaborator, so every entry point takes `now` as a plain
//! value.

use vstd::prelude::*;

verus! {

/// Span from the first to the last registered movement, in milliseconds,
/// strictly beyond which an episode counts as sustained.
pub const SUSTAIN_THRESHOLD_MS: u64 = 10_000;

/// Time since the first registered movement, in milliseconds, strictly beyond
/// which a not-yet-sustained episode is abandoned as stale.
pub const STALE_THRESHOLD_MS: u64 = 20_000;

#[derive(Clone, Copy)]
struct MovementInner {
    ts_first_movement: u64,
    ts_last_movement: u64,
}

/// The tracker: at most one active movement window, absent until the first
/// movement of a series arrives and after a stale episode is cleared.
pub struct Movement {
    movement: Option<MovementInner>,
}

impl Movement {
    /// The active window as `(first, last)` registered timestamps, absent
    /// when no unexpired movement series is in progress.
    pub closed spec fn window(&self) -> Option<(u64, u64)> {
        match self.movement {
            Some(m) => Some((m.ts_first_movement, m.ts_last_movement)),
            None => None,
        }
    }

    /// Well-formedness: an active window never runs backwards.
    pub open spec fn wf(&self) -> bool {
        self.window() matches Some((first, last)) ==> first <= last
    }

    pub fn new() -> (m: Movement)
        ensures
            m.wf(),
            m.window() is None,
    {
        Movement { movement: None }
    }

    /// Record one movement event at `now`. Opens a window on the first event
    /// of a series, otherwise extends the open window's last timestamp.
    /// Timestamps must come from a monotonically non-decreasing clock.
    pub fn register_move(&mut self, now: u64)
        requires
            old(self).wf(),
            old(self).window() matches Some((_first, last)) ==> now >= last,
        ensures
            final(self).wf(),
            final(self).window() == window_after_move(old(self).window(), now),
    {
        if let Some(m) = self.movement {
            self.movement = Some(MovementInner {
                ts_first_movement: m.ts_first_movement,
                ts_last_movement: now,
            });
        } else {
            // first movement in a series
            self.movement = Some(MovementInner { ts_first_movement: now, ts_last_movement: now });
        }
    }

    /// Evaluate the active window at `now`: reports whether movement has been
    /// sustained beyond the threshold (the window is left open for the caller
    /// to act on), and otherwise clears a window that has gone stale.
    pub fn is_10s_movement(&mut self, now: u64) -> (sustained: bool)
        requires
            old(self).wf(),
        ensures
            final(self).wf(),
            sustained == is_sustained(old(self).window()),
            final(self).window() == window_after_eval(old(self).window(), now),
            !is_stale(old(self).window(), now) ==> *final(self) == *old(self),
    {
        if let Some(m) = self.movement {
            if m.ts_last_movement - m.ts_first_movement > SUSTAIN_THRESHOLD_MS {
                return true;
            } else if now >= m.ts_first_movement && now - m.ts_first_movement > STALE_THRESHOLD_MS {
                self.movement = None;
            }
        }
        false
    }
}

/// The window after one more movement at `now`.
pub open spec fn window_after_move(w: Option<(u64, u64)>, now: u64) -> Option<(u64, u64)> {
    match w {
        None => Some((now, now)),
        Some((first, _last)) => Some((first, now)),
    }
}

/// The sustained verdict of a window: its first-to-last span strictly exceeds
/// the sustain threshold. An absent window is never sustained.
pub open spec fn is_sustained(w: Option<(u64, u64)>) -> bool {
    match w {
        Some((first, last)) => last - first > SUSTAIN_THRESHOLD_MS,
        None => false,
    }
}

/// Whether an open window has gone stale at `now`: not sustained, and quiet
/// since its first event for strictly longer than the stale threshold.
pub open spec fn is_stale(w: Option<(u64, u64)>, now: u64) -> bool {
    match w {
        Some((first, _last)) => !is_sustained(w) && now - first > STALE_THRESHOLD_MS,
        None => false,
    }
}

/// The window after one evaluation at `now`: a stale window is cleared,
/// anything else is left as it is.
pub open spec fn window_after_eval(w: Option<(u64, u64)>, now: u64) -> Option<(u64, u64)> {
    if is_stale(w, now) {
        None
    } else {
        w
    }
}

/// The window that a series of movements produces on a tracker that starts
/// empty and is never evaluated in between.
pub open spec fn window_of_series(ts: Seq<u64>) -> Option<(u64, u64)>
    decreases ts.len(),
{
    if ts.len() == 0 {
        None
    } else {
        window_after_move(window_of_series(ts.drop_last()), ts.last())
    }
}

/// Sustained-movement threshold law: after any non-empty series of recorded
/// movements on a fresh tracker, the window spans exactly the first to the
/// last timestamp of the series, and the sustained verdict holds exactly when
/// that span strictly exceeds the sustain threshold — never before.
pub proof fn lemma_sustained_iff_span(ts: Seq<u64>)
    requires
        ts.len() > 0,
    ensures
        window_of_series(ts) == Some((ts[0], ts.last())),
        is_sustained(window_of_series(ts)) <==> ts.last() - ts[0] > SUSTAIN_THRESHOLD_MS,
    decreases ts.len(),
{
    if ts.len() == 1 {
        assert(ts.drop_last().len() == 0);
        assert(window_of_series(ts.drop_last()) is None);
    } else {
        lemma_sustained_iff_span(ts.drop_last());
        assert(ts.drop_last()[0] == ts[0]);
        assert(window_of_series(ts) == window_after_move(window_of_series(ts.drop_last()), ts.last()));
    }
}

/// No false positive before either threshold: evaluating an open window whose
/// span is within the sustain threshold, at a time within the stale threshold
/// of its first event, reports not-sustained and leaves the window unchanged.
pub proof fn lemma_no_false_positive(first: u64, last: u64, now: u64)
    requires
        first <= last,
        last - first <= SUSTAIN_THRESHOLD_MS,
        now - first <= STALE_THRESHOLD_MS,
    ensures
        !is_sustained(Some((first, last))),
        window_after_eval(Some((first, last)), now) == Some((first, last)),
{
}

} // verus!
