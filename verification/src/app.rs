use vstd::prelude::*;
use vstd::pervasive::VecAdditionalExecFns;
use rand::seq::SliceRandom;
use crate::config::Config;
use crate::error::AppError;

verus! {

/// The abstract operator commands, decoupled from raw key codes: the
/// external driver maps key events to these; unmapped keys produce none.
pub enum Command {
    ResetTimer,
    Reshuffle,
    Quit,
    Next,
    Previous,
}

/// Main application state: the roster, the per-person elapsed times, the
/// current selection, and the countdown anchors. All instants and durations
/// are milliseconds on one monotonic clock, which callers sample and pass
/// in, so that the state machine itself is a pure function of state and time.
pub struct App {
    pub config: Config,
    pub names: Vec<String>,
    /// Accumulated speaking time per roster entry, in milliseconds;
    /// index-aligned with `names`.
    pub per_person_timers: Vec<u64>,
    pub current_person_index: usize,
    /// Clock reading when the countdown was last (re)started.
    pub timer_start_ms: u64,
    /// Clock reading up to which elapsed time has been attributed.
    pub last_tick_ms: u64,
    pub should_quit: bool,
    pub is_dark_background: bool,
}

/// Every entry of `s` is zero.
pub open spec fn all_zero(s: Seq<u64>) -> bool {
    forall|i: int| 0 <= i < s.len() ==> #[trigger] s[i] == 0
}

/// Where `Next` moves the selection from `k` in a roster of length `len`:
/// one step forward, clamped at the last index.
pub open spec fn next_index(k: int, len: int) -> int {
    if k < len - 1 {
        k + 1
    } else {
        len - 1
    }
}

/// Where `Previous` moves the selection from `k`: one step back, clamped
/// at zero.
pub open spec fn prev_index(k: int) -> int {
    if k > 0 {
        k - 1
    } else {
        0
    }
}

/// Remaining meeting time at clock reading `now`: the configured duration
/// less the time elapsed since the anchor, clamped at zero.
pub open spec fn spec_remaining(duration: int, start: int, now: int) -> int
    recommends
        start <= now,
{
    if now - start >= duration {
        0
    } else {
        duration - (now - start)
    }
}

/// Relies on rand's `SliceRandom::shuffle` (an in-place Fisher-Yates
/// shuffle built from swaps): whatever permutation comes out, the slice
/// afterwards holds exactly the same elements with the same multiplicity.
#[verifier::external_body]
fn shuffle_strings(names: &mut Vec<String>)
    ensures
        final(names)@.len() == old(names)@.len(),
        final(names)@.to_multiset() == old(names)@.to_multiset(),
{
    let mut rng = rand::rng();
    names.shuffle(&mut rng);
}

/// A vector of `n` zero durations.
fn zero_timers(n: usize) -> (v: Vec<u64>)
    ensures
        v@.len() == n,
        all_zero(v@),
{
    let mut v: Vec<u64> = Vec::new();
    let mut i: usize = 0;
    while i < n
        invariant
            i <= n,
            v@.len() == i,
            all_zero(v@),
        decreases n - i,
    {
        v.push(0);
        i = i + 1;
    }
    v
}

impl App {
    /// Structural invariant: the roster is non-empty, the per-person timers
    /// are index-aligned with it, the selection is in range, and no timer
    /// exceeds the clock reading it was last updated at (so attribution
    /// arithmetic can never overflow).
    pub open spec fn wf(self) -> bool {
        &&& self.names@.len() > 0
        &&& self.per_person_timers@.len() == self.names@.len()
        &&& (self.current_person_index as int) < self.names@.len()
        &&& forall|i: int|
            0 <= i < self.per_person_timers@.len() ==> #[trigger] self.per_person_timers@[i]
                <= self.last_tick_ms
    }

    /// Builds a session from the configuration and the initial roster, with
    /// every timer at zero, the selection at the first entry, and both
    /// countdown anchors at `now_ms`. Fails exactly when the roster is empty.
    pub fn new(config: Config, names: Vec<String>, is_dark_background: bool, now_ms: u64) -> (r:
        Result<App, AppError>)
        ensures
            names@.len() == 0 <==> r is Err,
            r is Err ==> r matches Err(AppError::NoNamesFound),
            r matches Ok(a) ==> {
                &&& a.wf()
                &&& a.config == config
                &&& a.names == names
                &&& a.per_person_timers@.len() == names@.len()
                &&& all_zero(a.per_person_timers@)
                &&& a.current_person_index == 0
                &&& a.timer_start_ms == now_ms
                &&& a.last_tick_ms == now_ms
                &&& a.should_quit == false
                &&& a.is_dark_background == is_dark_background
            },
    {
        if names.len() == 0 {
            return Err(AppError::NoNamesFound);
        }
        let n = names.len();
        Ok(
            App {
                config,
                names,
                per_person_timers: zero_timers(n),
                current_person_index: 0,
                timer_start_ms: now_ms,
                last_tick_ms: now_ms,
                should_quit: false,
                is_dark_background,
            },
        )
    }

    /// Zeroes every per-person timer and moves the selection back to the
    /// first entry; the roster order and the countdown are untouched.
    pub fn reset_per_person_timers(&mut self)
        ensures
            final(self).names == old(self).names,
            final(self).config == old(self).config,
            final(self).per_person_timers@.len() == old(self).names@.len(),
            all_zero(final(self).per_person_timers@),
            final(self).current_person_index == 0,
            final(self).timer_start_ms == old(self).timer_start_ms,
            final(self).last_tick_ms == old(self).last_tick_ms,
            final(self).should_quit == old(self).should_quit,
            final(self).is_dark_background == old(self).is_dark_background,
            old(self).wf() ==> final(self).wf(),
    {
        self.per_person_timers = zero_timers(self.names.len());
        self.current_person_index = 0;
    }

    /// Re-anchors the countdown and the attribution point to `now_ms`;
    /// roster, timers and selection are untouched.
    pub fn reset_timer(&mut self, now_ms: u64)
        requires
            now_ms >= old(self).last_tick_ms,
        ensures
            final(self).names == old(self).names,
            final(self).config == old(self).config,
            final(self).per_person_timers == old(self).per_person_timers,
            final(self).current_person_index == old(self).current_person_index,
            final(self).timer_start_ms == now_ms,
            final(self).last_tick_ms == now_ms,
            final(self).should_quit == old(self).should_quit,
            final(self).is_dark_background == old(self).is_dark_background,
            old(self).wf() ==> final(self).wf(),
    {
        self.timer_start_ms = now_ms;
        self.last_tick_ms = now_ms;
    }

    /// Attributes all clock time since the last tick to the selected
    /// person's timer, then advances the attribution point to `now_ms`:
    /// exactly `now_ms - last_tick_ms` is added to the selected entry and
    /// no other entry changes.
    pub fn update_per_person_timers(&mut self, now_ms: u64)
        requires
            old(self).wf(),
            now_ms >= old(self).last_tick_ms,
        ensures
            final(self).wf(),
            final(self).names == old(self).names,
            final(self).config == old(self).config,
            final(self).current_person_index == old(self).current_person_index,
            final(self).timer_start_ms == old(self).timer_start_ms,
            final(self).should_quit == old(self).should_quit,
            final(self).is_dark_background == old(self).is_dark_background,
            final(self).last_tick_ms == now_ms,
            final(self).per_person_timers@ == old(self).per_person_timers@.update(
                old(self).current_person_index as int,
                (old(self).per_person_timers@[old(self).current_person_index as int] + (now_ms
                    - old(self).last_tick_ms)) as u64,
            ),
    {
        let elapsed = now_ms - self.last_tick_ms;
        if self.current_person_index < self.per_person_timers.len() {
            let idx = self.current_person_index;
            let cur = self.per_person_timers[idx];
            self.per_person_timers.set(idx, cur + elapsed);
        }
        self.last_tick_ms = now_ms;
    }

    /// The meeting time still remaining at clock reading `now_ms`.
    pub fn remaining_time(&self, now_ms: u64) -> (r: u64)
        requires
            now_ms >= self.timer_start_ms,
        ensures
            r == spec_remaining(
                self.config.duration_ms as int,
                self.timer_start_ms as int,
                now_ms as int,
            ),
    {
        let elapsed = now_ms - self.timer_start_ms;
        if elapsed >= self.config.duration_ms {
            0
        } else {
            self.config.duration_ms - elapsed
        }
    }

    /// Applies a uniformly random permutation to the roster, zeroes every
    /// timer and moves the selection back to the first entry. The roster
    /// afterwards holds the same names with the same multiplicity; the
    /// countdown anchors are untouched.
    pub fn shuffle_names(&mut self)
        requires
            old(self).wf(),
        ensures
            final(self).wf(),
            final(self).names@.to_multiset() == old(self).names@.to_multiset(),
            final(self).names@.len() == old(self).names@.len(),
            final(self).config == old(self).config,
            final(self).per_person_timers@.len() == old(self).names@.len(),
            all_zero(final(self).per_person_timers@),
            final(self).current_person_index == 0,
            final(self).timer_start_ms == old(self).timer_start_ms,
            final(self).last_tick_ms == old(self).last_tick_ms,
            final(self).should_quit == old(self).should_quit,
            final(self).is_dark_background == old(self).is_dark_background,
    {
        shuffle_strings(&mut self.names);
        self.reset_per_person_timers();
    }

    /// The command-to-transition table. `ResetTimer` zeroes the timers and
    /// re-anchors the countdown; `Reshuffle` permutes the roster, zeroes the
    /// timers and re-anchors the countdown; `Quit` raises the quit flag;
    /// `Next` and `Previous` move the selection one step, clamped at the
    /// ends. Nothing else changes in any arm.
    pub fn handle_command(&mut self, cmd: Command, now_ms: u64)
        requires
            old(self).wf(),
            now_ms >= old(self).last_tick_ms,
        ensures
            final(self).wf(),
            final(self).config == old(self).config,
            final(self).is_dark_background == old(self).is_dark_background,
            final(self).names@.len() == old(self).names@.len(),
            match cmd {
                Command::ResetTimer => {
                    &&& final(self).names == old(self).names
                    &&& final(self).per_person_timers@.len() == old(self).names@.len()
                    &&& all_zero(final(self).per_person_timers@)
                    &&& final(self).current_person_index == 0
                    &&& final(self).timer_start_ms == now_ms
                    &&& final(self).last_tick_ms == now_ms
                    &&& final(self).should_quit == old(self).should_quit
                },
                Command::Reshuffle => {
                    &&& final(self).names@.to_multiset() == old(self).names@.to_multiset()
                    &&& final(self).per_person_timers@.len() == old(self).names@.len()
                    &&& all_zero(final(self).per_person_timers@)
                    &&& final(self).current_person_index == 0
                    &&& final(self).timer_start_ms == now_ms
                    &&& final(self).last_tick_ms == now_ms
                    &&& final(self).should_quit == old(self).should_quit
                },
                Command::Quit => {
                    &&& final(self).names == old(self).names
                    &&& final(self).per_person_timers == old(self).per_person_timers
                    &&& final(self).current_person_index == old(self).current_person_index
                    &&& final(self).timer_start_ms == old(self).timer_start_ms
                    &&& final(self).last_tick_ms == old(self).last_tick_ms
                    &&& final(self).should_quit == true
                },
                Command::Next => {
                    &&& final(self).names == old(self).names
                    &&& final(self).per_person_timers == old(self).per_person_timers
                    &&& final(self).current_person_index as int == next_index(
                        old(self).current_person_index as int,
                        old(self).names@.len() as int,
                    )
                    &&& final(self).timer_start_ms == old(self).timer_start_ms
                    &&& final(self).last_tick_ms == old(self).last_tick_ms
                    &&& final(self).should_quit == old(self).should_quit
                },
                Command::Previous => {
                    &&& final(self).names == old(self).names
                    &&& final(self).per_person_timers == old(self).per_person_timers
                    &&& final(self).current_person_index as int == prev_index(
                        old(self).current_person_index as int,
                    )
                    &&& final(self).timer_start_ms == old(self).timer_start_ms
                    &&& final(self).last_tick_ms == old(self).last_tick_ms
                    &&& final(self).should_quit == old(self).should_quit
                },
            },
    {
        match cmd {
            Command::ResetTimer => {
                self.reset_per_person_timers();
                self.reset_timer(now_ms);
            },
            Command::Reshuffle => {
                self.shuffle_names();
                self.reset_timer(now_ms);
            },
            Command::Quit => {
                self.should_quit = true;
            },
            Command::Next => {
                if self.current_person_index < self.names.len() - 1 {
                    self.current_person_index = self.current_person_index + 1;
                }
            },
            Command::Previous => {
                if self.current_person_index > 0 {
                    self.current_person_index = self.current_person_index - 1;
                }
            },
        }
    }

    pub fn config(&self) -> (r: &Config)
        ensures
            *r == self.config,
    {
        &self.config
    }

    pub fn names(&self) -> (r: &Vec<String>)
        ensures
            *r == self.names,
    {
        &self.names
    }

    pub fn per_person_timers(&self) -> (r: &Vec<u64>)
        ensures
            *r == self.per_person_timers,
    {
        &self.per_person_timers
    }

    pub fn current_person_index(&self) -> (r: usize)
        ensures
            r == self.current_person_index,
    {
        self.current_person_index
    }

    pub fn is_dark_background(&self) -> (r: bool)
        ensures
            r == self.is_dark_background,
    {
        self.is_dark_background
    }

    pub fn should_quit(&self) -> (r: bool)
        ensures
            r == self.should_quit,
    {
        self.should_quit
    }
}

/// Navigation clamps at both ends: from selection `k` in a roster of length
/// `len`, `Next` yields `min(k + 1, len - 1)` and `Previous` yields
/// `max(k - 1, 0)`; at the last index `Next` is a no-op, and at index zero
/// `Previous` is a no-op.
pub proof fn lemma_navigation_clamps(k: int, len: int)
    requires
        0 <= k < len,
    ensures
        next_index(k, len) == vstd::math::min(k + 1, len - 1),
        prev_index(k) == vstd::math::max(k - 1, 0),
        k == len - 1 ==> next_index(k, len) == k,
        k == 0 ==> prev_index(k) == k,
{
}

/// Between resets the remaining meeting time never increases as the clock
/// advances, and it is exactly zero once the elapsed time has reached the
/// configured duration.
pub proof fn lemma_remaining_monotonic(duration: int, start: int, n1: int, n2: int)
    requires
        start <= n1 <= n2,
    ensures
        spec_remaining(duration, start, n2) <= spec_remaining(duration, start, n1),
        n1 - start >= duration ==> spec_remaining(duration, start, n1) == 0,
{
}

/// Immediately after a reset (both anchors at `now`), the full configured
/// duration remains.
pub proof fn lemma_remaining_after_reset(duration: int, now: int)
    requires
        duration >= 0,
    ensures
        spec_remaining(duration, now, now) == duration,
{
}

} // verus!
