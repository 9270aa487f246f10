//! The system's sleep, as the login manager announces it.

use vstd::prelude::*;

verus! {

#[derive(Clone, Copy, Debug, PartialEq, Eq, Structural)]
pub enum SleepEvent {
    Preparing,
    Resumed,
}

/// What the announcement says: that the system is about to sleep, or that it has woken.
pub fn sleep_event(preparing: bool) -> (event: SleepEvent)
    ensures
        event == (if preparing {
            SleepEvent::Preparing
        } else {
            SleepEvent::Resumed
        }),
{
    if preparing {
        SleepEvent::Preparing
    } else {
        SleepEvent::Resumed
    }
}

/// The system prepares for sleep where it says so, and has woken where it does not.
pub proof fn announcements_are_told_apart(preparing: bool, event: SleepEvent)
    requires
        call_ensures(sleep_event, (preparing,), event),
    ensures
        event is Preparing ==> preparing,
        event is Resumed ==> !preparing,
{
}

} // verus!
