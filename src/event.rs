use vstd::prelude::*;

verus! {

/// Event type of synchronisation markers (`EV_SYN`).
pub const EV_SYN: u16 = 0;

/// Event type of buttons and keys (`EV_KEY`).
pub const EV_KEY: u16 = 1;

/// Event type of relative motion axes (`EV_REL`).
pub const EV_REL: u16 = 2;

/// The reserved no-op code (`KEY_RESERVED`): it ends each button sequence.
pub const NOOP_CODE: u16 = 0;

/// The carrier code (`KEY_3`): its value holds the logical button, offset by the base code.
pub const CARRIER_CODE: u16 = 4;

/// The extra button (`BTN_EXTRA`) that the synthetic device always advertises.
pub const EXTRA_BUTTON: u16 = 0x114;

/// One event as read from, or written to, an input device.
#[derive(Clone, Copy, Debug, PartialEq, Eq, Structural)]
pub struct RawEvent {
    pub event_type: u16,
    pub code: u16,
    pub value: i32,
}

/// The part an event plays in the three-event button sequence.
#[derive(Clone, Copy, Debug, PartialEq, Eq, Structural)]
pub enum EventRole {
    /// The closing event, always forwarded as it is.
    Terminator,
    /// The first event, whose value carries the logical button.
    Carrier,
    /// An event that carries a button code directly.
    Direct,
}

pub open spec fn role_of(code: u16) -> EventRole {
    if code == NOOP_CODE {
        EventRole::Terminator
    } else if code == CARRIER_CODE {
        EventRole::Carrier
    } else {
        EventRole::Direct
    }
}

/// The role that an event code plays in the button sequence.
pub fn classify(code: u16) -> (r: EventRole)
    ensures
        r == role_of(code),
{
    if code == NOOP_CODE {
        EventRole::Terminator
    } else if code == CARRIER_CODE {
        EventRole::Carrier
    } else {
        EventRole::Direct
    }
}

impl RawEvent {
    pub fn new(event_type: u16, code: u16, value: i32) -> (r: RawEvent)
        ensures
            r == (RawEvent { event_type, code, value }),
    {
        RawEvent { event_type, code, value }
    }

    pub fn event_type(&self) -> (r: u16)
        ensures
            r == self.event_type,
    {
        self.event_type
    }

    pub fn code(&self) -> (r: u16)
        ensures
            r == self.code,
    {
        self.code
    }

    pub fn value(&self) -> (r: i32)
        ensures
            r == self.value,
    {
        self.value
    }

    /// Motion and synchronisation events are never translated.
    pub open spec fn is_motion_or_sync(self) -> bool {
        self.event_type == EV_REL || self.event_type == EV_SYN
    }

    pub fn bypasses_translation(&self) -> (r: bool)
        ensures
            r == self.is_motion_or_sync(),
    {
        self.event_type == EV_REL || self.event_type == EV_SYN
    }
}

} // verus!
