use shot_overlay::error::ShotError;
use shot_overlay::playback::{Msg, State, TimerAction, TimerState};

#[test]
fn test_play_tick_pause_resume_keeps_only_playing_time() {
    let stopped = State::Stopped;

    let (playing, action, render) = stopped.update(Msg::PlayOrPause, 1_000);
    assert_eq!(action, TimerAction::Start);
    assert!(render);
    assert!(playing.is_playing());
    assert_eq!(playing.elapsed(), 0);

    let (ticked, action, render) = playing.update(Msg::Tick, 1_050);
    assert_eq!(action, TimerAction::Keep);
    assert!(render);
    assert_eq!(ticked.elapsed(), 50);

    let (paused, action, render) = ticked.update(Msg::PlayOrPause, 1_100);
    assert_eq!(action, TimerAction::Cancel);
    assert!(render);
    assert!(!paused.is_playing());
    assert_eq!(paused.elapsed(), 100);

    // A stray tick while paused advances nothing and asks no re-render.
    let (idle, action, render) = paused.update(Msg::Tick, 1_150);
    assert_eq!(action, TimerAction::Keep);
    assert!(!render);
    assert_eq!(idle, paused);
    assert_eq!(idle.elapsed(), 100);

    // Resuming credits nothing for the paused interval.
    let (resumed, action, render) = idle.update(Msg::PlayOrPause, 1_200);
    assert_eq!(action, TimerAction::Start);
    assert!(render);
    assert!(resumed.is_playing());
    assert_eq!(resumed.elapsed(), 100);

    let (ticked_again, _, _) = resumed.update(Msg::Tick, 1_260);
    assert_eq!(ticked_again.elapsed(), 160);
}

#[test]
fn test_stop_resets_elapsed_from_any_state() {
    let stopped = State::Stopped;
    let (playing, _, _) = stopped.update(Msg::PlayOrPause, 500);
    let (ticked, _, _) = playing.update(Msg::Tick, 700);
    assert_eq!(ticked.elapsed(), 200);

    let (after_stop, action, render) = ticked.update(Msg::Stop, 900);
    assert_eq!(after_stop, State::Stopped);
    assert_eq!(after_stop.elapsed(), 0);
    assert_eq!(action, TimerAction::Cancel);
    assert!(render);

    let (paused, _, _) = playing.update(Msg::PlayOrPause, 800);
    let (after_stop, _, _) = paused.update(Msg::Stop, 900);
    assert_eq!(after_stop, State::Stopped);
    assert_eq!(after_stop.elapsed(), 0);

    let (still_stopped, _, _) = State::Stopped.update(Msg::Stop, 900);
    assert_eq!(still_stopped, State::Stopped);
}

#[test]
fn test_stray_tick_while_stopped_is_ignored() {
    let (state, action, render) = State::Stopped.update(Msg::Tick, 12_345);
    assert_eq!(state, State::Stopped);
    assert_eq!(state.elapsed(), 0);
    assert_eq!(action, TimerAction::Keep);
    assert!(!render);
}

#[test]
fn test_timer_state_transitions() {
    let fresh = TimerState::new(2_000);
    assert_eq!(fresh, TimerState { ticked: 2_000, elapsed: 0 });

    let advanced = fresh.tick(2_075);
    assert_eq!(advanced, TimerState { ticked: 2_075, elapsed: 75 });

    let paused = advanced.into_pause(2_100);
    assert_eq!(paused, TimerState { ticked: 2_100, elapsed: 100 });

    let resumed = paused.into_playing(9_999);
    assert_eq!(resumed, TimerState { ticked: 9_999, elapsed: 100 });
}

#[test]
fn test_error_descriptions() {
    assert_eq!(ShotError::MalformedSample.describe(), "malformed sample");
    assert_eq!(ShotError::EmptySeries.describe(), "empty series");
    assert_eq!(ShotError::DegenerateDomain.describe(), "degenerate domain");
}
