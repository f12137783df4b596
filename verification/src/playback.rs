//! The playback clock: a pausable, resumable timer driven by commands and
//! periodic ticks.
//!
//! The clock is a three-state machine over wall-clock milliseconds. While
//! playing it accumulates elapsed time by folding the wall-clock delta since
//! the last tick; pausing folds once more and freezes; resuming restarts the
//! delta from "now" so the paused interval is never credited. The host owns
//! the periodic tick source and is told, through a [`TimerAction`], when to
//! start and when to cancel it; ticks that straggle in while not playing are
//! ignored.

use vstd::prelude::*;

verus! {

/// The commands the playback clock reacts to.
#[derive(Clone, Copy, Debug, PartialEq, Eq, Structural)]
pub enum Msg {
    PlayOrPause,
    Stop,
    Tick,
}

/// The running timer: wall-clock time of the last fold, and the playback
/// time accumulated so far, both in milliseconds.
#[derive(Clone, Copy, Debug, PartialEq, Eq, Structural)]
pub struct TimerState {
    pub ticked: u64,
    pub elapsed: u64,
}

/// The playback clock's state.
#[derive(Clone, Copy, Debug, PartialEq, Eq, Structural)]
pub enum State {
    Stopped,
    Playing(TimerState),
    Paused(TimerState),
}

/// What the host must do with its periodic tick source after a transition.
#[derive(Clone, Copy, Debug, PartialEq, Eq, Structural)]
pub enum TimerAction {
    /// Start (or restart) the tick source.
    Start,
    /// Cancel the tick source.
    Cancel,
    /// Leave the tick source as it is.
    Keep,
}

impl TimerState {
    /// The single shared accounting step: credit the wall-clock delta since
    /// the last fold and restart the delta from `now`.
    pub open spec fn spec_fold(self, now: u64) -> TimerState {
        TimerState { ticked: now, elapsed: (self.elapsed + (now - self.ticked)) as u64 }
    }

    /// The clock read `now` is usable: wall time did not run backwards and
    /// the accumulated total still fits.
    pub open spec fn fold_ok(self, now: u64) -> bool {
        &&& self.ticked <= now
        &&& self.elapsed + (now - self.ticked) <= u64::MAX
    }

    /// A fresh timer starting at `now` with nothing accumulated.
    pub fn new(now: u64) -> (r: TimerState)
        ensures
            r == (TimerState { ticked: now, elapsed: 0 }),
    {
        TimerState { ticked: now, elapsed: 0 }
    }

    /// Folds the delta since the last tick and freezes: the state entering a
    /// pause.
    pub fn into_pause(&self, now: u64) -> (r: TimerState)
        requires
            self.fold_ok(now),
        ensures
            r == self.spec_fold(now),
    {
        TimerState { ticked: now, elapsed: self.elapsed + (now - self.ticked) }
    }

    /// Restarts the delta from `now` without touching the accumulated total:
    /// the state leaving a pause. The paused interval is never credited.
    pub fn into_playing(&self, now: u64) -> (r: TimerState)
        ensures
            r == (TimerState { ticked: now, elapsed: self.elapsed }),
    {
        TimerState { ticked: now, elapsed: self.elapsed }
    }

    /// Advances the running clock by the delta since the last tick.
    pub fn tick(&self, now: u64) -> (r: TimerState)
        requires
            self.fold_ok(now),
        ensures
            r == self.spec_fold(now),
    {
        TimerState { ticked: now, elapsed: self.elapsed + (now - self.ticked) }
    }
}

impl State {
    /// The playback time a renderer sees: the accumulated total, 0 when
    /// stopped.
    pub open spec fn spec_elapsed(self) -> u64 {
        match self {
            State::Stopped => 0,
            State::Playing(ts) => ts.elapsed,
            State::Paused(ts) => ts.elapsed,
        }
    }

    /// The clock read `now` is usable for this state: only a running timer
    /// folds, so only it constrains `now`.
    pub open spec fn clock_ok(self, now: u64) -> bool {
        match self {
            State::Playing(ts) => ts.fold_ok(now),
            _ => true,
        }
    }

    /// The full transition relation of the clock, with the tick-source
    /// action the host must take and whether a re-render is due.
    pub open spec fn spec_update(self, msg: Msg, now: u64) -> (State, TimerAction, bool) {
        match msg {
            Msg::PlayOrPause => match self {
                State::Stopped => (
                    State::Playing(TimerState { ticked: now, elapsed: 0 }),
                    TimerAction::Start,
                    true,
                ),
                State::Playing(ts) => (State::Paused(ts.spec_fold(now)), TimerAction::Cancel, true),
                State::Paused(ts) => (
                    State::Playing(TimerState { ticked: now, elapsed: ts.elapsed }),
                    TimerAction::Start,
                    true,
                ),
            },
            Msg::Stop => (State::Stopped, TimerAction::Cancel, true),
            Msg::Tick => match self {
                State::Playing(ts) => (State::Playing(ts.spec_fold(now)), TimerAction::Keep, true),
                _ => (self, TimerAction::Keep, false),
            },
        }
    }

    /// The state a command leads to.
    pub open spec fn next(self, msg: Msg, now: u64) -> State {
        self.spec_update(msg, now).0
    }

    /// True while the clock is advancing.
    pub fn is_playing(&self) -> (r: bool)
        ensures
            r == (*self is Playing),
    {
        matches!(self, State::Playing(_))
    }

    /// The playback time a renderer sees, in milliseconds.
    pub fn elapsed(&self) -> (r: u64)
        ensures
            r == self.spec_elapsed(),
    {
        match self {
            State::Stopped => 0,
            State::Playing(ts) => ts.elapsed,
            State::Paused(ts) => ts.elapsed,
        }
    }

    /// Runs one transition of the clock at wall time `now`: play/pause
    /// toggling, stopping, or a periodic tick. Returns the next state, what
    /// to do with the tick source, and whether to re-render.
    pub fn update(&self, msg: Msg, now: u64) -> (r: (State, TimerAction, bool))
        requires
            self.clock_ok(now),
        ensures
            r == self.spec_update(msg, now),
    {
        match msg {
            Msg::PlayOrPause => match self {
                State::Stopped => (State::Playing(TimerState::new(now)), TimerAction::Start, true),
                State::Playing(ts) => (State::Paused(ts.into_pause(now)), TimerAction::Cancel, true),
                State::Paused(ts) => (
                    State::Playing(ts.into_playing(now)),
                    TimerAction::Start,
                    true,
                ),
            },
            Msg::Stop => (State::Stopped, TimerAction::Cancel, true),
            Msg::Tick => match self {
                State::Playing(ts) => (State::Playing(ts.tick(now)), TimerAction::Keep, true),
                _ => (*self, TimerAction::Keep, false),
            },
        }
    }
}

/// Stopping resets the clock from any state: the next state is `Stopped`,
/// whose elapsed time is exactly 0, and the tick source is cancelled.
pub proof fn lemma_stop_resets(s: State, now: u64)
    ensures
        s.next(Msg::Stop, now) == State::Stopped,
        s.next(Msg::Stop, now).spec_elapsed() == 0,
        s.spec_update(Msg::Stop, now).1 == TimerAction::Cancel,
{
}

/// A stray tick while stopped or paused changes nothing: the state, and with
/// it the elapsed time, stay as they were.
pub proof fn lemma_stray_tick_ignored(s: State, now: u64)
    requires
        !(s is Playing),
    ensures
        s.next(Msg::Tick, now) == s,
        s.next(Msg::Tick, now).spec_elapsed() == s.spec_elapsed(),
{
}

/// The accumulated total only advances while playing: out of `Playing`, no
/// command whatsoever increases the elapsed time.
pub proof fn lemma_elapsed_advances_only_while_playing(s: State, msg: Msg, now: u64)
    requires
        !(s is Playing),
    ensures
        s.next(msg, now).spec_elapsed() <= s.spec_elapsed(),
{
}

/// Pausing freezes the clock. Playing from stopped at `t0`, ticking at
/// `t1`, pausing at `t2`, a stray tick at `t3` and resuming at `t4` yields
/// exactly the time spent playing, `t2 - t0`: the stray tick advances
/// nothing, and resuming credits nothing for the pause.
pub proof fn lemma_pause_freezes_elapsed(t0: u64, t1: u64, t2: u64, t3: u64, t4: u64)
    requires
        t0 <= t1 <= t2 <= t3 <= t4,
    ensures
        ({
            let playing = State::Stopped.next(Msg::PlayOrPause, t0);
            let ticked = playing.next(Msg::Tick, t1);
            let paused = ticked.next(Msg::PlayOrPause, t2);
            let idle = paused.next(Msg::Tick, t3);
            let resumed = idle.next(Msg::PlayOrPause, t4);
            &&& paused.spec_elapsed() == t2 - t0
            &&& idle == paused
            &&& resumed.spec_elapsed() == t2 - t0
            &&& resumed is Playing
        }),
{
}

} // verus!
