//! The window's side of the timer: the phase that the two buttons move, the
//! commands they send to the worker, and what the window does with the
//! messages that come back.

use vstd::prelude::*;
use crate::clock::{
    lemma_pause_keeps_remaining, remaining_millis, remaining_seconds, TICK_MILLIS, TICK_NANOS,
};
use crate::display::{clock_text, refresh_for, update_countdown, Face, Paint};
use crate::entry::{read_setting, setting_of, Setting};
use crate::message::ChannelMessage;
use crate::worker::{Reaction, Worker};

verus! {

/// The phase of the timer, as the window knows it.
#[derive(Debug, Copy, Clone, PartialEq, Eq, Structural)]
pub enum Phase {
    /// No countdown is armed; the entry fields may be changed.
    Idle,
    /// The worker counts down.
    Running,
    /// The worker was told to pause and keeps what is left.
    Paused,
}

/// The caption of the start button.
#[derive(Debug, Copy, Clone, PartialEq, Eq, Structural)]
pub enum Caption {
    Start,
    Pause,
    Resume,
}

/// What a press of the start button brings about.
#[derive(Debug, Copy, Clone, PartialEq, Eq, Structural)]
pub struct Click {
    /// The command for the worker.
    pub command: Option<ChannelMessage>,
    /// The notice for the window's own queue.
    pub notice: Option<ChannelMessage>,
    /// The caption of the start button from now on.
    pub caption: Caption,
    /// The colour of the start button from now on.
    pub paint: Paint,
}

/// What a press of the reset button brings about.
#[derive(Debug, Copy, Clone, PartialEq, Eq, Structural)]
pub struct Reset {
    /// The command for the worker.
    pub command: ChannelMessage,
    /// The caption of the start button from now on.
    pub caption: Caption,
    /// The colour of the start button from now on.
    pub paint: Paint,
    /// The colour of the reset button, which is switched off.
    pub reset_paint: Paint,
    /// The height of the window, which shows the entry fields again.
    pub window_height: i32,
}

/// What the window does with a message from its queue.
#[derive(Debug)]
pub enum WindowAction {
    /// Show this on the display.
    Show(Face),
    /// Switch the reset button on, as a stop button.
    EnableStop,
    /// Nothing: the message is not for the window.
    Nothing,
}

impl Caption {
    /// The text of the caption.
    pub open spec fn text(self) -> Seq<char> {
        match self {
            Caption::Start => "Start"@,
            Caption::Pause => "Pause"@,
            Caption::Resume => "Resume"@,
        }
    }

    /// The text of the caption.
    pub fn as_str(&self) -> (s: &'static str)
        ensures
            s@ == self.text(),
    {
        match self {
            Caption::Start => "Start",
            Caption::Pause => "Pause",
            Caption::Resume => "Resume",
        }
    }
}

impl Phase {
    /// The caption that the start button carries in this phase.
    pub open spec fn caption(self) -> Caption {
        match self {
            Phase::Idle => Caption::Start,
            Phase::Running => Caption::Pause,
            Phase::Paused => Caption::Resume,
        }
    }

    /// The phase after a press of the start button. `setting` is what the
    /// entry fields hold, if they hold a setting.
    pub open spec fn after_start_click(self, setting: Option<Setting>) -> Phase {
        match self {
            Phase::Idle => if setting is Some {
                Phase::Running
            } else {
                Phase::Idle
            },
            Phase::Running => Phase::Paused,
            Phase::Paused => Phase::Running,
        }
    }

    /// The command that a press of the start button sends to the worker:
    /// from idle a start with the duration set in the entry fields, and none
    /// where they hold no setting; while running a pause; when paused a start
    /// with the milliseconds that the worker stored last.
    pub open spec fn start_click_command(
        self,
        setting: Option<Setting>,
        remaining_millis: u64,
    ) -> Option<ChannelMessage> {
        match self {
            Phase::Idle => match setting {
                Some(s) => Some(ChannelMessage::StartCounter(s.millis() as u64)),
                None => None,
            },
            Phase::Running => Some(ChannelMessage::PauseCountdown),
            Phase::Paused => Some(ChannelMessage::StartCounter(remaining_millis)),
        }
    }

    /// Whether the wheel and the keys may change the entry fields.
    pub fn accepts_adjustment(&self) -> (b: bool)
        ensures
            b == (*self is Idle),
    {
        match self {
            Phase::Idle => true,
            _ => false,
        }
    }

    /// The start button was pressed.
    ///
    /// `minutes_text` and `seconds_text` are the texts of the entry fields,
    /// and `remaining_millis` is the content of the shared slot, read at this
    /// moment. A press that sends a command also puts the notice
    /// `StartClicked` on the window's queue, and shows the button in green
    /// while the worker counts and in blue otherwise. A press from idle on
    /// fields that hold no setting does nothing at all.
    pub fn start_clicked(
        &mut self,
        minutes_text: &str,
        seconds_text: &str,
        remaining_millis: u64,
    ) -> (click: Click)
        ensures
            *final(self) == old(self).after_start_click(
                setting_of(minutes_text@, seconds_text@),
            ),
            click.command == old(self).start_click_command(
                setting_of(minutes_text@, seconds_text@),
                remaining_millis,
            ),
            click.notice == if click.command is Some {
                Some(ChannelMessage::StartClicked)
            } else {
                None
            },
            click.caption == final(self).caption(),
            click.paint == if *final(self) is Running {
                Paint::Green
            } else {
                Paint::Blue
            },
    {
        match *self {
            Phase::Idle => {
                match read_setting(minutes_text, seconds_text) {
                    Some(setting) => {
                        *self = Phase::Running;
                        Click {
                            command: Some(ChannelMessage::StartCounter(setting.duration_millis())),
                            notice: Some(ChannelMessage::StartClicked),
                            caption: Caption::Pause,
                            paint: Paint::Green,
                        }
                    },
                    None => Click {
                        command: None,
                        notice: None,
                        caption: Caption::Start,
                        paint: Paint::Blue,
                    },
                }
            },
            Phase::Running => {
                *self = Phase::Paused;
                Click {
                    command: Some(ChannelMessage::PauseCountdown),
                    notice: Some(ChannelMessage::StartClicked),
                    caption: Caption::Resume,
                    paint: Paint::Blue,
                }
            },
            Phase::Paused => {
                *self = Phase::Running;
                Click {
                    command: Some(ChannelMessage::StartCounter(remaining_millis)),
                    notice: Some(ChannelMessage::StartClicked),
                    caption: Caption::Pause,
                    paint: Paint::Green,
                }
            },
        }
    }

    /// The reset button was pressed: the worker is told to stop, the timer is
    /// idle again, and the entry fields come back.
    pub fn reset_clicked(&mut self) -> (reset: Reset)
        ensures
            *final(self) == Phase::Idle,
            reset == (Reset {
                command: ChannelMessage::StopCountdown,
                caption: Caption::Start,
                paint: Paint::Blue,
                reset_paint: Paint::Gray,
                window_height: crate::entry::EXPANDED_WINDOW_HEIGHT,
            }),
    {
        *self = Phase::Idle;
        Reset {
            command: ChannelMessage::StopCountdown,
            caption: Caption::Start,
            paint: Paint::Blue,
            reset_paint: Paint::Gray,
            window_height: crate::entry::EXPANDED_WINDOW_HEIGHT,
        }
    }
}

/// What the window does with `msg`: an update changes the display, the
/// notice of a press switches the stop button on, and commands, which are
/// the worker's, are passed over.
pub fn window_action(msg: ChannelMessage) -> (action: WindowAction)
    ensures
        match msg {
            ChannelMessage::UpdateCountdown(countdown, update_background) => {
                &&& action matches WindowAction::Show(face)
                &&& face.label@ == clock_text(countdown as nat)
                &&& face.refresh == if update_background {
                    Some(refresh_for(countdown))
                } else {
                    None
                }
            },
            ChannelMessage::StartClicked => action is EnableStop,
            _ => action is Nothing,
        },
{
    match msg {
        ChannelMessage::UpdateCountdown(countdown, update_background) => WindowAction::Show(
            update_countdown(countdown, update_background),
        ),
        ChannelMessage::StartClicked => WindowAction::EnableStop,
        _ => WindowAction::Nothing,
    }
}

/// Pausing and resuming keeps the time that was left, to within one tick.
///
/// A countdown of `duration_ms` runs; its worker read the clock at `sampled`
/// and went on counting. The start button is pressed at `paused`, no more
/// than one tick after that reading, and the worker finds the pause at its
/// next tick, at `noticed`. A second press resumes. Then: the first press
/// sends the pause and the second a start with the milliseconds that the
/// reading stored, whatever the entry fields hold; the worker ends the
/// counting on the pause without storing or sending anything, and is armed
/// again with the stored milliseconds, which its first reading finds whole;
/// and those milliseconds are no less than what was truly left at the first
/// press, and more by one tick at most.
pub proof fn lemma_pause_and_resume_keep_the_time(
    duration_ms: u64,
    sampled: u128,
    paused: u128,
    noticed: u128,
    setting: Option<Setting>,
)
    requires
        sampled <= paused,
        paused - sampled <= TICK_NANOS,
        remaining_seconds(duration_ms, sampled) != 0,
    ensures
        ({
            let worker = Worker::Counting { duration_ms };
            let stored = remaining_millis(duration_ms, sampled) as u64;
            let resumed = Worker::Counting { duration_ms: stored };
            &&& worker.tick_reaction(None, sampled).store == Some(stored)
            &&& worker.after_tick(None, sampled) == worker
            &&& Phase::Running.start_click_command(setting, stored) == Some(
                ChannelMessage::PauseCountdown,
            )
            &&& Phase::Running.after_start_click(setting) == Phase::Paused
            &&& worker.tick_reaction(Some(ChannelMessage::PauseCountdown), noticed) == (Reaction {
                store: None,
                emit: None,
                counting: false,
            })
            &&& worker.after_tick(Some(ChannelMessage::PauseCountdown), noticed) == Worker::Waiting
            &&& Phase::Paused.start_click_command(setting, stored) == Some(
                ChannelMessage::StartCounter(stored),
            )
            &&& Phase::Paused.after_start_click(setting) == Phase::Running
            &&& Worker::Waiting.after_command(ChannelMessage::StartCounter(stored)) == resumed
            &&& resumed.tick_reaction(None, 0).store == Some(stored)
            &&& remaining_millis(duration_ms, paused) <= stored
            &&& stored <= remaining_millis(duration_ms, paused) + TICK_MILLIS
        }),
{
    lemma_pause_keeps_remaining(duration_ms, sampled, paused);
}

} // verus!
