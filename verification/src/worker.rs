//! The timer worker as a state machine.
//!
//! The worker waits for a command. A start command arms a countdown; from
//! then on the driver reads the clock once per tick and hands the reading in,
//! together with whatever command it found pending. Each reading yields the
//! milliseconds to store for a later resume and one update for the window.
//! The counting ends when the whole seconds reach zero, or on a pause or a
//! stop. The worker itself never ends: it goes back to waiting.

use vstd::prelude::*;
use crate::clock::{
    lemma_remaining_never_grows, lemma_shown_is_exact, remaining, remaining_millis,
    remaining_seconds, shown, shown_seconds,
};
use crate::message::ChannelMessage;

verus! {

/// The worker: waiting for a command, or counting down.
#[derive(Debug, Copy, Clone, PartialEq, Eq, Structural)]
pub enum Worker {
    /// No countdown is armed.
    Waiting,
    /// A countdown of `duration_ms` milliseconds is running.
    Counting { duration_ms: u64 },
}

/// What the driver has to do after a step of the worker.
#[derive(Debug, Copy, Clone, PartialEq, Eq, Structural)]
pub struct Reaction {
    /// The milliseconds left, to be written to the shared slot.
    pub store: Option<u64>,
    /// The update to send to the window.
    pub emit: Option<ChannelMessage>,
    /// Whether a countdown is running after the step.
    pub counting: bool,
}

impl Worker {
    /// The worker after it took `msg` from the command channel.
    pub open spec fn after_command(self, msg: ChannelMessage) -> Worker {
        match (self, msg) {
            (Worker::Waiting, ChannelMessage::StartCounter(duration_ms)) => Worker::Counting {
                duration_ms,
            },
            (_, ChannelMessage::PauseCountdown) => Worker::Waiting,
            (_, ChannelMessage::StopCountdown) => Worker::Waiting,
            _ => self,
        }
    }

    /// What the worker sends to the window when it takes `msg` from the
    /// command channel: the terminal update on a stop, nothing otherwise.
    pub open spec fn reply_to(msg: ChannelMessage) -> Option<ChannelMessage> {
        if msg is StopCountdown {
            Some(ChannelMessage::terminal_update())
        } else {
            None
        }
    }

    /// The worker after the pending command, if there is one.
    pub open spec fn after_poll(self, polled: Option<ChannelMessage>) -> Worker {
        match polled {
            Some(msg) => self.after_command(msg),
            None => self,
        }
    }

    /// The worker after one reading of the clock, with no command pending.
    pub open spec fn after_reading(self, elapsed_nanos: u128) -> Worker {
        match self {
            Worker::Waiting => Worker::Waiting,
            Worker::Counting { duration_ms } => if remaining_seconds(duration_ms, elapsed_nanos)
                == 0 {
                Worker::Waiting
            } else {
                self
            },
        }
    }

    /// The worker after one tick: first the pending command, then, if a
    /// countdown was running and still is, the reading of the clock.
    pub open spec fn after_tick(self, polled: Option<ChannelMessage>, elapsed_nanos: u128) -> Worker {
        match self {
            Worker::Waiting => self.after_poll(polled),
            Worker::Counting { .. } => self.after_poll(polled).after_reading(elapsed_nanos),
        }
    }

    /// What the driver has to do for one tick.
    pub open spec fn tick_reaction(
        self,
        polled: Option<ChannelMessage>,
        elapsed_nanos: u128,
    ) -> Reaction {
        match (self, self.after_poll(polled)) {
            (Worker::Counting { .. }, Worker::Counting { duration_ms }) => Reaction {
                store: Some(remaining_millis(duration_ms, elapsed_nanos) as u64),
                emit: Some(
                    ChannelMessage::UpdateCountdown(
                        shown_seconds(duration_ms, elapsed_nanos) as u32,
                        true,
                    ),
                ),
                counting: remaining_seconds(duration_ms, elapsed_nanos) != 0,
            },
            (_, after) => Reaction {
                store: None,
                emit: match polled {
                    Some(msg) => Worker::reply_to(msg),
                    None => None,
                },
                counting: after is Counting,
            },
        }
    }

    /// The worker after a run of ticks, one for each reading in `samples`,
    /// during which no command arrives.
    pub open spec fn after_run(self, samples: Seq<u128>) -> Worker
        decreases samples.len(),
    {
        if samples.len() == 0 {
            self
        } else {
            self.after_tick(None, samples[0]).after_run(samples.drop_first())
        }
    }

    /// The seconds carried by the updates that such a run sends, in the order
    /// in which it sends them.
    pub open spec fn run_updates(self, samples: Seq<u128>) -> Seq<u32>
        decreases samples.len(),
    {
        if samples.len() == 0 {
            Seq::empty()
        } else {
            let rest = self.after_tick(None, samples[0]).run_updates(samples.drop_first());
            match self.tick_reaction(None, samples[0]).emit {
                Some(ChannelMessage::UpdateCountdown(seconds, _)) => seq![seconds] + rest,
                _ => rest,
            }
        }
    }

    /// A worker that waits for its first command.
    pub fn new() -> (w: Worker)
        ensures
            w == Worker::Waiting,
    {
        Worker::Waiting
    }

    /// Whether a countdown is running.
    pub fn is_counting(&self) -> (b: bool)
        ensures
            b == (*self is Counting),
    {
        match self {
            Worker::Counting { .. } => true,
            Worker::Waiting => false,
        }
    }

    /// Takes one message from the command channel.
    ///
    /// A waiting worker is armed by a start command. A stop is answered with
    /// the terminal update and a pause with nothing; both leave the worker
    /// waiting. A running countdown is not rearmed by a second start, and
    /// messages that are no commands change nothing.
    pub fn receive(&mut self, msg: ChannelMessage) -> (r: Reaction)
        ensures
            *final(self) == old(self).after_command(msg),
            r.store is None,
            r.emit == Worker::reply_to(msg),
            r.counting == (*final(self) is Counting),
    {
        let emit = match msg {
            ChannelMessage::StopCountdown => Some(ChannelMessage::UpdateCountdown(0, true)),
            _ => None,
        };
        let next = match (*self, msg) {
            (Worker::Waiting, ChannelMessage::StartCounter(duration_ms)) => Worker::Counting {
                duration_ms,
            },
            (_, ChannelMessage::PauseCountdown) => Worker::Waiting,
            (_, ChannelMessage::StopCountdown) => Worker::Waiting,
            (current, _) => current,
        };
        *self = next;
        Reaction { store: None, emit, counting: next.is_counting() }
    }

    /// One tick of a running countdown.
    ///
    /// `polled` is the command that was pending when the driver looked, if
    /// there was one, and `elapsed_nanos` the time since the countdown was
    /// armed. A pause or a stop ends the counting before the clock is looked
    /// at. Otherwise the reaction carries the milliseconds left and the update
    /// with the whole seconds left, and the counting goes on unless those
    /// seconds are zero. A worker that was not counting only takes the
    /// command, as `receive` does.
    pub fn tick(&mut self, polled: Option<ChannelMessage>, elapsed_nanos: u128) -> (r: Reaction)
        ensures
            *final(self) == old(self).after_tick(polled, elapsed_nanos),
            r == old(self).tick_reaction(polled, elapsed_nanos),
            r.counting == (*final(self) is Counting),
    {
        let was_counting = self.is_counting();
        let answered = match polled {
            Some(msg) => self.receive(msg).emit,
            None => None,
        };
        let running = if was_counting {
            *self
        } else {
            Worker::Waiting
        };
        match running {
            Worker::Counting { duration_ms } => {
                let left = remaining(duration_ms, elapsed_nanos);
                let counting = left.seconds != 0;
                if !counting {
                    *self = Worker::Waiting;
                }
                Reaction {
                    store: Some(left.millis),
                    emit: Some(ChannelMessage::UpdateCountdown(shown(left.seconds), true)),
                    counting,
                }
            },
            Worker::Waiting => Reaction {
                store: None,
                emit: answered,
                counting: self.is_counting(),
            },
        }
    }
}

/// Whether the clock readings never run backwards.
pub open spec fn readings_in_order(samples: Seq<u128>) -> bool {
    forall|i: int, j: int| 0 <= i <= j < samples.len() ==> samples[i] <= samples[j]
}

/// A worker that waits stays waiting, and sends nothing, while no command
/// arrives.
pub proof fn lemma_waiting_is_silent(samples: Seq<u128>)
    ensures
        Worker::Waiting.after_run(samples) == Worker::Waiting,
        Worker::Waiting.run_updates(samples) == Seq::<u32>::empty(),
    decreases samples.len(),
{
    if samples.len() > 0 {
        lemma_waiting_is_silent(samples.drop_first());
    }
}

/// The updates of an undisturbed run are the seconds shown at its readings,
/// one after the other, up to and including the first reading at which no
/// whole second is left. There the counting ends; before it, it goes on.
pub proof fn lemma_run_updates_follow_readings(duration_ms: u64, samples: Seq<u128>)
    ensures
        ({
            let worker = Worker::Counting { duration_ms };
            let updates = worker.run_updates(samples);
            &&& updates.len() <= samples.len()
            &&& forall|i: int|
                0 <= i < updates.len() ==> updates[i] == shown_seconds(duration_ms, samples[i])
            &&& forall|i: int|
                0 <= i < updates.len() - 1 ==> remaining_seconds(duration_ms, samples[i]) != 0
            &&& worker.after_run(samples) is Waiting <==> updates.len() > 0 && remaining_seconds(
                duration_ms,
                samples[updates.len() - 1],
            ) == 0
            &&& worker.after_run(samples) is Counting ==> updates.len() == samples.len()
                && worker.after_run(samples) == worker
        }),
    decreases samples.len(),
{
    let worker = Worker::Counting { duration_ms };
    if samples.len() > 0 {
        let rest = samples.drop_first();
        let updates = worker.run_updates(samples);
        if remaining_seconds(duration_ms, samples[0]) == 0 {
            lemma_waiting_is_silent(rest);
            assert(updates =~= seq![shown_seconds(duration_ms, samples[0]) as u32]);
        } else {
            lemma_run_updates_follow_readings(duration_ms, rest);
            let tail = worker.run_updates(rest);
            assert(updates =~= seq![shown_seconds(duration_ms, samples[0]) as u32] + tail);
            assert forall|i: int| 0 <= i < updates.len() implies updates[i] == shown_seconds(
                duration_ms,
                samples[i],
            ) by {
                if i > 0 {
                    assert(updates[i] == tail[i - 1]);
                    assert(samples[i] == rest[i - 1]);
                }
            }
            assert forall|i: int| 0 <= i < updates.len() - 1 implies remaining_seconds(
                duration_ms,
                samples[i],
            ) != 0 by {
                if i > 0 {
                    assert(samples[i] == rest[i - 1]);
                }
            }
            if updates.len() > 1 {
                assert(samples[updates.len() - 1] == rest[tail.len() - 1]);
            }
        }
    }
}

/// A countdown that is left to run counts down and ends at zero.
///
/// For every duration that fits the 32 bits of an update, and every run of
/// clock readings that never go backwards, the seconds of the updates never
/// increase from one update to the next; zero is sent at most once, as the
/// last update; the counting has ended exactly if that zero was sent; and it
/// does end once a reading finds no whole second left.
pub proof fn lemma_run_counts_down_to_zero(duration_ms: u64, samples: Seq<u128>)
    requires
        duration_ms < 0x1_0000_0000 * 1000,
        readings_in_order(samples),
    ensures
        ({
            let worker = Worker::Counting { duration_ms };
            let updates = worker.run_updates(samples);
            &&& forall|i: int, j: int| 0 <= i <= j < updates.len() ==> updates[j] <= updates[i]
            &&& forall|i: int| 0 <= i < updates.len() - 1 ==> updates[i] > 0
            &&& worker.after_run(samples) is Waiting <==> updates.len() > 0 && updates.last() == 0
            &&& samples.len() > 0 && remaining_seconds(duration_ms, samples.last()) == 0
                ==> worker.after_run(samples) is Waiting
        }),
{
    let worker = Worker::Counting { duration_ms };
    let updates = worker.run_updates(samples);
    lemma_run_updates_follow_readings(duration_ms, samples);
    assert forall|i: int| 0 <= i < updates.len() implies updates[i] == remaining_seconds(
        duration_ms,
        samples[i],
    ) by {
        lemma_shown_is_exact(duration_ms, samples[i]);
    }
    assert forall|i: int, j: int| 0 <= i <= j < updates.len() implies updates[j] <= updates[i] by {
        lemma_remaining_never_grows(duration_ms, samples[i], samples[j]);
    }
}

/// A stop is answered with exactly one update, the terminal one, whatever the
/// worker was doing, and leaves the worker waiting: both when the stop is the
/// command that a waiting worker receives and when it is found pending at a
/// tick.
pub proof fn lemma_stop_sends_one_terminal_update(worker: Worker, elapsed_nanos: u128)
    ensures
        worker.after_command(ChannelMessage::StopCountdown) == Worker::Waiting,
        Worker::reply_to(ChannelMessage::StopCountdown) == Some(
            ChannelMessage::UpdateCountdown(0, true),
        ),
        worker.after_tick(Some(ChannelMessage::StopCountdown), elapsed_nanos) == Worker::Waiting,
        worker.tick_reaction(Some(ChannelMessage::StopCountdown), elapsed_nanos) == (Reaction {
            store: None,
            emit: Some(ChannelMessage::UpdateCountdown(0, true)),
            counting: false,
        }),
{
}

} // verus!
