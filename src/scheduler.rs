//! The decisions of the night mode poller: when a tick must force the mode
//! that the window asks for, when a manual toggle is kept, and what mode to
//! leave behind at shutdown. Reading the clock, reading and writing the
//! display mode and sleeping between ticks are left to the caller.
use vstd::prelude::*;
use crate::instant::LocalInstant;
use crate::timerange::TimeRange;

verus! {

/// State of the poller between ticks.
#[derive(Clone, Copy, Debug, PartialEq, Eq, Structural)]
pub struct NightModeScheduler {
    /// The configured night window.
    pub window: TimeRange,
    /// The instant of the last tick; `None` before the first one.
    pub previous_check: Option<LocalInstant>,
    /// The mode to put back when the process ends.
    pub restore_mode: bool,
}

impl NightModeScheduler {
    pub open spec fn wf(self) -> bool {
        &&& self.window.wf()
        &&& match self.previous_check {
            Some(p) => p.wf(),
            None => true,
        }
    }

    /// Whether a tick at `now` must recompute the mode: always on the first
    /// tick, afterwards when an end of the window was passed since the last.
    pub open spec fn crossed_at(self, now: LocalInstant) -> bool {
        match self.previous_check {
            Some(p) => self.window.spec_crossed(p, now),
            None => true,
        }
    }

    /// The mode that a tick at `now` asks for, if it asks for one.
    pub open spec fn poll_result(self, now: LocalInstant) -> Option<bool> {
        if self.crossed_at(now) {
            Some(self.window.spec_includes(now.spec_time()))
        } else {
            None
        }
    }

    /// The state after a tick at `now`.
    pub open spec fn after_poll(self, now: LocalInstant) -> NightModeScheduler {
        NightModeScheduler { previous_check: Some(now), ..self }
    }

    /// The mode to write when `desired` was asked for and `current` is shown.
    pub open spec fn write_for(desired: bool, current: bool) -> Option<bool> {
        if desired != current {
            Some(desired)
        } else {
            None
        }
    }

    /// The state after forcing `desired` over `current`.
    pub open spec fn after_apply(self, desired: bool, current: bool) -> NightModeScheduler {
        if desired != current {
            NightModeScheduler { restore_mode: desired, ..self }
        } else {
            self
        }
    }

    /// The state after a manual toggle away from `current`.
    pub open spec fn after_toggle(self, current: bool) -> NightModeScheduler {
        NightModeScheduler { restore_mode: !current, ..self }
    }

    /// The state, and the mode shown, after a whole tick at `now` that
    /// found `mode` shown: the poll, then the write if one was asked for.
    pub open spec fn tick_step(self, mode: bool, now: LocalInstant) -> (NightModeScheduler, bool) {
        let polled = self.after_poll(now);
        match self.poll_result(now) {
            Some(desired) => (
                polled.after_apply(desired, mode),
                match Self::write_for(desired, mode) {
                    Some(written) => written,
                    None => mode,
                },
            ),
            None => (polled, mode),
        }
    }

    /// The state, and the mode shown, after ticks at each of `nows` in turn,
    /// starting with `mode` shown and nothing else touching the mode.
    pub open spec fn run_ticks(self, mode: bool, nows: Seq<LocalInstant>) -> (NightModeScheduler, bool)
        decreases nows.len(),
    {
        if nows.len() == 0 {
            (self, mode)
        } else {
            let next = self.tick_step(mode, nows[0]);
            next.0.run_ticks(next.1, nows.drop_first())
        }
    }

    /// A poller for `window` that has not ticked yet; `initial_mode` is the
    /// mode shown when it starts.
    pub fn new(window: TimeRange, initial_mode: bool) -> (r: NightModeScheduler)
        requires
            window.wf(),
        ensures
            r.wf(),
            r.window == window,
            r.previous_check is None,
            r.restore_mode == initial_mode,
    {
        NightModeScheduler { window, previous_check: None, restore_mode: initial_mode }
    }

    /// First half of a tick at `now`: returns the mode the window asks for
    /// when an end was passed since the last tick (or on the first tick), and
    /// `None` otherwise. Records `now` as the last tick either way.
    pub fn poll(&mut self, now: LocalInstant) -> (r: Option<bool>)
        requires
            old(self).wf(),
            now.wf(),
        ensures
            final(self).wf(),
            r == old(self).poll_result(now),
            *final(self) == old(self).after_poll(now),
    {
        let crossed = match self.previous_check {
            Some(p) => self.window.did_cross_boundary(p, now),
            None => true,
        };
        let r = if crossed {
            Some(self.window.includes(now.time()))
        } else {
            None
        };
        self.previous_check = Some(now);
        r
    }

    /// Second half of a tick that asked for `desired` while `current` is
    /// shown: returns the mode to write, `None` when nothing must be written,
    /// and remembers a written mode for shutdown.
    pub fn apply(&mut self, desired: bool, current: bool) -> (r: Option<bool>)
        ensures
            r == Self::write_for(desired, current),
            *final(self) == old(self).after_apply(desired, current),
    {
        if desired != current {
            self.restore_mode = desired;
            Some(desired)
        } else {
            None
        }
    }

    /// A manual toggle while `current` is shown: returns the mode to write
    /// and remembers it for shutdown.
    pub fn toggle(&mut self, current: bool) -> (r: bool)
        ensures
            r == !current,
            *final(self) == old(self).after_toggle(current),
    {
        self.restore_mode = !current;
        !current
    }

    /// The mode to put back when the process ends.
    pub fn shutdown_mode(&self) -> (r: bool)
        ensures
            r == self.restore_mode,
    {
        self.restore_mode
    }
}

/// No tick in `nows` passes an end of `window`, each measured from the tick
/// before it and the first from `from`.
pub open spec fn quiet_ticks(window: TimeRange, from: LocalInstant, nows: Seq<LocalInstant>) -> bool {
    forall|i: int|
        0 <= i < nows.len() ==> !window.spec_crossed(
            if i == 0 {
                from
            } else {
                nows[i - 1]
            },
            #[trigger] nows[i],
        )
}

/// Ticks that pass no end of the window leave the shown mode, and the mode
/// to restore, as they were.
pub proof fn lemma_quiet_ticks_keep_mode(
    s: NightModeScheduler,
    mode: bool,
    from: LocalInstant,
    nows: Seq<LocalInstant>,
)
    requires
        s.previous_check == Some(from),
        quiet_ticks(s.window, from, nows),
    ensures
        s.run_ticks(mode, nows).1 == mode,
        s.run_ticks(mode, nows).0.restore_mode == s.restore_mode,
        s.run_ticks(mode, nows).0.window == s.window,
    decreases nows.len(),
{
    if nows.len() > 0 {
        assert(!s.window.spec_crossed(from, nows[0]));
        let next = s.tick_step(mode, nows[0]);
        assert(next.1 == mode);
        let rest = nows.drop_first();
        assert forall|i: int| 0 <= i < rest.len() implies !s.window.spec_crossed(
            if i == 0 {
                nows[0]
            } else {
                rest[i - 1]
            },
            #[trigger] rest[i],
        ) by {
            assert(rest[i] == nows[i + 1]);
        }
        lemma_quiet_ticks_keep_mode(next.0, mode, nows[0], rest);
    }
}

/// After a tick that passes an end of the window and so forces the mode the
/// window asks for, a manual toggle to the other mode is kept by every later
/// tick until one passes an end again; it is also the mode left at shutdown.
pub proof fn lemma_manual_toggle_kept_until_crossing(
    s: NightModeScheduler,
    mode: bool,
    first: LocalInstant,
    later: Seq<LocalInstant>,
)
    requires
        s.crossed_at(first),
        quiet_ticks(s.window, first, later),
    ensures
        s.tick_step(mode, first).1 == s.window.spec_includes(first.spec_time()),
        s.tick_step(mode, first).0.after_toggle(s.tick_step(mode, first).1).run_ticks(
            !s.tick_step(mode, first).1,
            later,
        ).1 == !s.tick_step(mode, first).1,
        s.tick_step(mode, first).0.after_toggle(s.tick_step(mode, first).1).run_ticks(
            !s.tick_step(mode, first).1,
            later,
        ).0.restore_mode == !s.tick_step(mode, first).1,
{
    let ticked = s.tick_step(mode, first);
    let toggled = ticked.0.after_toggle(ticked.1);
    lemma_quiet_ticks_keep_mode(toggled, !ticked.1, first, later);
}

} // verus!
