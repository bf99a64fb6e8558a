//! The demo panel: the messages of its widgets, the stopwatch switch, and
//! the rules that switch the buttons of the list of names on and off.

use vstd::prelude::*;

verus! {

/// A message of a widget of the panel.
#[derive(Debug, Copy, Clone, PartialEq, Eq, Structural)]
pub enum Message {
    SchemeChanged,
    CelsiusChanged,
    FahrenheitChanged,
    BookingUpdate,
    BookingBook,
    TimerReset,
    TimerChangeDuration,
    TimerTick,
    TimerPauseRunning,
    CrudClear,
    CrudCreate,
    CrudUpdate,
    CrudDelete,
    CrudSelect,
    CrudFilter,
}

/// Whether the stopwatch of the panel runs.
#[derive(Debug, Copy, Clone, PartialEq, Eq, Structural)]
pub enum TimerStatus {
    Running,
    Pause,
}

/// What a message does to the three buttons of the list: `Some(true)`
/// switches a button on, `Some(false)` off, and `None` leaves it.
#[derive(Debug, Copy, Clone, PartialEq, Eq, Structural)]
pub struct Switches {
    pub create: Option<bool>,
    pub update: Option<bool>,
    pub delete: Option<bool>,
}

impl TimerStatus {
    /// The other status.
    pub open spec fn toggled(self) -> TimerStatus {
        match self {
            TimerStatus::Running => TimerStatus::Pause,
            TimerStatus::Pause => TimerStatus::Running,
        }
    }

    /// The caption of the button that toggles the stopwatch: it names what
    /// a press would do.
    pub open spec fn caption(self) -> Seq<char> {
        match self {
            TimerStatus::Running => "Pause"@,
            TimerStatus::Pause => "Resume"@,
        }
    }

    /// Whether a tick moves the stopwatch on.
    pub fn advances(&self) -> (b: bool)
        ensures
            b == (*self is Running),
    {
        match self {
            TimerStatus::Running => true,
            TimerStatus::Pause => false,
        }
    }

    /// The button was pressed: a running stopwatch pauses and a paused one
    /// runs again. Returns the new caption of the button.
    pub fn toggle(&mut self) -> (caption: &'static str)
        ensures
            *final(self) == old(self).toggled(),
            caption@ == final(self).caption(),
    {
        match *self {
            TimerStatus::Running => {
                *self = TimerStatus::Pause;
                "Resume"
            },
            TimerStatus::Pause => {
                *self = TimerStatus::Running;
                "Pause"
            },
        }
    }
}

/// The buttons after a message of the list. `selection` is the line of the
/// browser that is selected, counted from 1, and 0 where none is.
///
/// Clearing the fields allows a new entry only. A new entry can be changed
/// and removed at once. A selected line can be changed and removed, and no
/// line cannot. After the list was filtered nothing new is created until
/// the fields are cleared.
pub open spec fn switches_after(msg: Message, selection: i32) -> Switches {
    match msg {
        Message::CrudClear => Switches {
            create: Some(true),
            update: Some(false),
            delete: Some(false),
        },
        Message::CrudCreate => Switches { create: None, update: Some(true), delete: Some(true) },
        Message::CrudSelect => Switches {
            create: None,
            update: Some(selection != 0),
            delete: Some(selection != 0),
        },
        Message::CrudFilter => Switches { create: Some(false), update: None, delete: None },
        _ => Switches { create: None, update: None, delete: None },
    }
}

/// The messages that the panel sends to itself after a message of the
/// list: a change of the list is followed by a new filtering, and a new
/// filtering or a removal by a look at the selection.
pub open spec fn follow_ups_of(msg: Message) -> Seq<Message> {
    match msg {
        Message::CrudCreate => seq![Message::CrudFilter],
        Message::CrudUpdate => seq![Message::CrudFilter],
        Message::CrudDelete => seq![Message::CrudFilter, Message::CrudSelect],
        Message::CrudFilter => seq![Message::CrudSelect],
        _ => Seq::empty(),
    }
}

/// The buttons after a message of the list.
pub fn crud_switches(msg: Message, selection: i32) -> (switches: Switches)
    ensures
        switches == switches_after(msg, selection),
{
    match msg {
        Message::CrudClear => Switches {
            create: Some(true),
            update: Some(false),
            delete: Some(false),
        },
        Message::CrudCreate => Switches { create: None, update: Some(true), delete: Some(true) },
        Message::CrudSelect => Switches {
            create: None,
            update: Some(selection != 0),
            delete: Some(selection != 0),
        },
        Message::CrudFilter => Switches { create: Some(false), update: None, delete: None },
        _ => Switches { create: None, update: None, delete: None },
    }
}

/// The messages that the panel sends to itself after a message of the list.
pub fn crud_follow_ups(msg: Message) -> (next: Vec<Message>)
    ensures
        next@ == follow_ups_of(msg),
{
    let mut next: Vec<Message> = Vec::new();
    match msg {
        Message::CrudCreate => {
            next.push(Message::CrudFilter);
        },
        Message::CrudUpdate => {
            next.push(Message::CrudFilter);
        },
        Message::CrudDelete => {
            next.push(Message::CrudFilter);
            next.push(Message::CrudSelect);
        },
        Message::CrudFilter => {
            next.push(Message::CrudSelect);
        },
        _ => {},
    }
    assert(next@ =~= follow_ups_of(msg));
    next
}

} // verus!
