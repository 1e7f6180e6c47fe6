//! Playback control shared by the tween effects: loop modes, the playback
//! messages, and how each message moves the play/direction flags and which
//! clocks it restarts.

use vstd::prelude::*;

verus! {

/// How the tween behaves when it completes.
#[derive(Clone, Copy, Debug, PartialEq, Eq, Structural)]
pub enum TweenLoop {
    /// Play once and stop.
    Once,
    /// Loop from start to end repeatedly.
    Loop,
    /// Ping-pong between start and end.
    PingPong,
}

/// The default loop mode is `Once`.
impl Default for TweenLoop {
    fn default() -> (r: TweenLoop)
        ensures
            r == TweenLoop::Once,
    {
        TweenLoop::Once
    }
}

/// Message to control any tween.
#[derive(Clone, Copy, Debug, PartialEq, Eq, Structural)]
pub enum TweenMessage {
    /// Start/restart the tween from the beginning.
    Play,
    /// Pause the tween at its current position.
    Pause,
    /// Resume a paused tween.
    Resume,
    /// Stop and reset to start value.
    Stop,
    /// Play in reverse (end -> start).
    Reverse,
}

/// What a transition resets: which of a tween's two clocks (the run timer
/// and the start-delay timer) go back to zero, and whether the animated
/// value goes back to its start value.
#[derive(Clone, Copy, Debug, PartialEq, Eq, Structural)]
pub struct PlaybackReset {
    pub timer: bool,
    pub delay_timer: bool,
    pub value_to_start: bool,
}

/// What a tween does on a frame, decided before any clock moves.
#[derive(Clone, Copy, Debug, PartialEq, Eq, Structural)]
pub enum TickStep {
    /// Not playing: nothing moves and no value is written.
    Stopped,
    /// Still waiting out the start delay: only the delay clock moves.
    Delaying,
    /// Running: the run clock moves and the eased value is written.
    Advancing,
}

/// Whether a tween runs, and in which direction.
#[derive(Clone, Copy, Debug, PartialEq, Eq, Structural)]
pub struct TweenPlayback {
    pub playing: bool,
    pub reversed: bool,
}

/// Flags after `m` is handled in state `p`.
pub open spec fn playback_after(p: TweenPlayback, m: TweenMessage) -> TweenPlayback {
    match m {
        TweenMessage::Play => TweenPlayback { playing: true, reversed: false },
        TweenMessage::Pause => TweenPlayback { playing: false, reversed: p.reversed },
        TweenMessage::Resume => TweenPlayback { playing: true, reversed: p.reversed },
        TweenMessage::Stop => TweenPlayback { playing: false, reversed: false },
        TweenMessage::Reverse => TweenPlayback { playing: true, reversed: true },
    }
}

/// What handling `m` resets: `Play` and `Reverse` restart both clocks,
/// `Stop` restarts the run timer and puts the value back to its start value,
/// `Pause` and `Resume` reset nothing.
pub open spec fn reset_by(m: TweenMessage) -> PlaybackReset {
    match m {
        TweenMessage::Play => PlaybackReset { timer: true, delay_timer: true, value_to_start: false },
        TweenMessage::Pause => PlaybackReset { timer: false, delay_timer: false, value_to_start: false },
        TweenMessage::Resume => PlaybackReset { timer: false, delay_timer: false, value_to_start: false },
        TweenMessage::Stop => PlaybackReset { timer: true, delay_timer: false, value_to_start: true },
        TweenMessage::Reverse => PlaybackReset { timer: true, delay_timer: true, value_to_start: false },
    }
}

impl TweenPlayback {
    /// A tween that is neither playing nor reversed.
    pub fn new() -> (r: TweenPlayback)
        ensures
            !r.playing,
            !r.reversed,
    {
        TweenPlayback { playing: false, reversed: false }
    }

    /// Start-up: an auto-playing tween starts playing with both clocks at
    /// zero; otherwise nothing changes.
    pub fn init(&mut self, auto_play: bool) -> (r: PlaybackReset)
        ensures
            final(self).reversed == old(self).reversed,
            final(self).playing == (old(self).playing || auto_play),
            r == (PlaybackReset { timer: auto_play, delay_timer: auto_play, value_to_start: false }),
    {
        if auto_play {
            self.playing = true;
            PlaybackReset { timer: true, delay_timer: true, value_to_start: false }
        } else {
            PlaybackReset { timer: false, delay_timer: false, value_to_start: false }
        }
    }

    /// Handles a playback message; returns what it resets.
    pub fn handle_message(&mut self, message: TweenMessage) -> (r: PlaybackReset)
        ensures
            *final(self) == playback_after(*old(self), message),
            r == reset_by(message),
            match message {
                TweenMessage::Play => final(self).playing && !final(self).reversed && r.timer
                    && r.delay_timer && !r.value_to_start,
                TweenMessage::Pause => !final(self).playing && final(self).reversed
                    == old(self).reversed && !r.timer && !r.delay_timer && !r.value_to_start,
                TweenMessage::Resume => final(self).playing && final(self).reversed
                    == old(self).reversed && !r.timer && !r.delay_timer && !r.value_to_start,
                TweenMessage::Stop => !final(self).playing && !final(self).reversed && r.timer
                    && !r.delay_timer && r.value_to_start,
                TweenMessage::Reverse => final(self).playing && final(self).reversed && r.timer
                    && r.delay_timer && !r.value_to_start,
            },
    {
        match message {
            TweenMessage::Play => {
                self.playing = true;
                self.reversed = false;
                PlaybackReset { timer: true, delay_timer: true, value_to_start: false }
            },
            TweenMessage::Pause => {
                self.playing = false;
                PlaybackReset { timer: false, delay_timer: false, value_to_start: false }
            },
            TweenMessage::Resume => {
                self.playing = true;
                PlaybackReset { timer: false, delay_timer: false, value_to_start: false }
            },
            TweenMessage::Stop => {
                self.playing = false;
                self.reversed = false;
                PlaybackReset { timer: true, delay_timer: false, value_to_start: true }
            },
            TweenMessage::Reverse => {
                self.playing = true;
                self.reversed = true;
                PlaybackReset { timer: true, delay_timer: true, value_to_start: false }
            },
        }
    }

    /// The decision at the start of a frame: a tween that is not playing does
    /// nothing; a playing one first waits out its start delay
    /// (`delay_pending`: the delay clock is still below the delay), then
    /// advances.
    pub fn tick_step(&self, delay_pending: bool) -> (r: TickStep)
        ensures
            r == (if !self.playing {
                TickStep::Stopped
            } else if delay_pending {
                TickStep::Delaying
            } else {
                TickStep::Advancing
            }),
    {
        if !self.playing {
            TickStep::Stopped
        } else if delay_pending {
            TickStep::Delaying
        } else {
            TickStep::Advancing
        }
    }

    /// The run reached the end of its curve: a `Once` tween stops playing
    /// there; `Loop` and `PingPong` tweens keep going. The direction stays.
    pub fn reach_end(&mut self, mode: TweenLoop)
        ensures
            final(self).reversed == old(self).reversed,
            final(self).playing == (old(self).playing && mode != TweenLoop::Once),
    {
        if mode == TweenLoop::Once {
            self.playing = false;
        }
    }
}

/// What each message does, whatever the state before: `Pause` stops the
/// tween where it is and `Resume` restarts it, both keeping the direction and
/// resetting nothing; `Play` and `Reverse` run it forward and backward from
/// the beginning; `Stop` halts it, facing forward, back at its start value.
pub proof fn lemma_each_message(p: TweenPlayback)
    ensures
        !playback_after(p, TweenMessage::Pause).playing,
        playback_after(p, TweenMessage::Pause).reversed == p.reversed,
        !reset_by(TweenMessage::Pause).timer && !reset_by(TweenMessage::Pause).delay_timer
            && !reset_by(TweenMessage::Pause).value_to_start,
        playback_after(p, TweenMessage::Resume).playing,
        playback_after(p, TweenMessage::Resume).reversed == p.reversed,
        !reset_by(TweenMessage::Resume).timer && !reset_by(TweenMessage::Resume).delay_timer
            && !reset_by(TweenMessage::Resume).value_to_start,
        playback_after(p, TweenMessage::Play).playing,
        !playback_after(p, TweenMessage::Play).reversed,
        playback_after(p, TweenMessage::Reverse).playing,
        playback_after(p, TweenMessage::Reverse).reversed,
        !reset_by(TweenMessage::Play).value_to_start && !reset_by(TweenMessage::Reverse).value_to_start,
        !playback_after(p, TweenMessage::Stop).playing,
        !playback_after(p, TweenMessage::Stop).reversed,
        reset_by(TweenMessage::Stop).timer && !reset_by(TweenMessage::Stop).delay_timer,
{
}

/// Handling the same message twice has the effect of handling it once.
pub proof fn lemma_message_idempotent(p: TweenPlayback, m: TweenMessage)
    ensures
        playback_after(playback_after(p, m), m) == playback_after(p, m),
{
}

/// `Stop` leaves a tween stopped and facing forward, whatever its state, and
/// puts its value back to the start value.
pub proof fn lemma_stop_resets(p: TweenPlayback)
    ensures
        !playback_after(p, TweenMessage::Stop).playing,
        !playback_after(p, TweenMessage::Stop).reversed,
        reset_by(TweenMessage::Stop).value_to_start,
{
}

/// `Pause` then `Resume` leaves a tween playing in the direction it had.
pub proof fn lemma_pause_resume(p: TweenPlayback)
    ensures
        playback_after(playback_after(p, TweenMessage::Pause), TweenMessage::Resume) == (
        TweenPlayback { playing: true, reversed: p.reversed }),
{
}

/// `Play` and `Reverse` both start a run from the beginning, forward and
/// backward respectively, whatever the state before.
pub proof fn lemma_play_and_reverse_restart(p: TweenPlayback)
    ensures
        playback_after(p, TweenMessage::Play) == (TweenPlayback { playing: true, reversed: false }),
        playback_after(p, TweenMessage::Reverse) == (TweenPlayback { playing: true, reversed: true }),
        reset_by(TweenMessage::Play) == reset_by(TweenMessage::Reverse),
        reset_by(TweenMessage::Play).timer && reset_by(TweenMessage::Play).delay_timer,
{
}

} // verus!
