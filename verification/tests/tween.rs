use juice::{PlaybackReset, TickStep, TweenLoop, TweenMessage, TweenPlayback};

fn reset(timer: bool, delay_timer: bool, value_to_start: bool) -> PlaybackReset {
    PlaybackReset { timer, delay_timer, value_to_start }
}

fn state(playing: bool, reversed: bool) -> TweenPlayback {
    TweenPlayback { playing, reversed }
}

#[test]
fn new_playback_is_stopped_and_forward() {
    assert_eq!(TweenPlayback::new(), state(false, false));
}

#[test]
fn init_starts_auto_play_tweens() {
    let mut p = TweenPlayback::new();
    let r = p.init(true);
    assert_eq!(p, state(true, false));
    assert_eq!(r, reset(true, true, false));

    let mut q = TweenPlayback::new();
    let r = q.init(false);
    assert_eq!(q, state(false, false));
    assert_eq!(r, reset(false, false, false));
}

#[test]
fn each_message_sets_flags_and_clocks() {
    let mut p = state(false, true);
    assert_eq!(p.handle_message(TweenMessage::Play), reset(true, true, false));
    assert_eq!(p, state(true, false));

    assert_eq!(p.handle_message(TweenMessage::Pause), reset(false, false, false));
    assert_eq!(p, state(false, false));

    assert_eq!(p.handle_message(TweenMessage::Resume), reset(false, false, false));
    assert_eq!(p, state(true, false));

    assert_eq!(p.handle_message(TweenMessage::Reverse), reset(true, true, false));
    assert_eq!(p, state(true, true));

    assert_eq!(p.handle_message(TweenMessage::Stop), reset(true, false, true));
    assert_eq!(p, state(false, false));
}

#[test]
fn messages_are_idempotent() {
    let messages = [
        TweenMessage::Play,
        TweenMessage::Pause,
        TweenMessage::Resume,
        TweenMessage::Stop,
        TweenMessage::Reverse,
    ];
    for start in [state(false, false), state(true, false), state(false, true), state(true, true)] {
        for m in messages {
            let mut once = start;
            once.handle_message(m);
            let mut twice = once;
            twice.handle_message(m);
            assert_eq!(once, twice, "{m:?} from {start:?}");
        }
    }
}

#[test]
fn pause_then_resume_keeps_direction() {
    let mut p = state(true, true);
    p.handle_message(TweenMessage::Pause);
    p.handle_message(TweenMessage::Resume);
    assert_eq!(p, state(true, true));
}

#[test]
fn reach_end_stops_only_once_tweens() {
    let mut once = state(true, true);
    once.reach_end(TweenLoop::Once);
    assert_eq!(once, state(false, true));

    let mut looping = state(true, false);
    looping.reach_end(TweenLoop::Loop);
    assert_eq!(looping, state(true, false));

    let mut ping_pong = state(true, true);
    ping_pong.reach_end(TweenLoop::PingPong);
    assert_eq!(ping_pong, state(true, true));
}

#[test]
fn default_loop_mode_is_once() {
    assert_eq!(TweenLoop::default(), TweenLoop::Once);
}

#[test]
fn tick_step_waits_for_play_then_delay() {
    assert_eq!(state(false, false).tick_step(true), TickStep::Stopped);
    assert_eq!(state(false, true).tick_step(false), TickStep::Stopped);
    assert_eq!(state(true, false).tick_step(true), TickStep::Delaying);
    assert_eq!(state(true, true).tick_step(false), TickStep::Advancing);
}

#[test]
fn only_stop_returns_value_to_start() {
    for m in [TweenMessage::Play, TweenMessage::Pause, TweenMessage::Resume, TweenMessage::Reverse] {
        let mut p = state(true, false);
        assert!(!p.handle_message(m).value_to_start, "{m:?}");
    }
    let mut p = state(true, true);
    assert!(p.handle_message(TweenMessage::Stop).value_to_start);
}
