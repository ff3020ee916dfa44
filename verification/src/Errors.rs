use vstd::prelude::*;

verus! {

/// Every way in which the kernel refuses to go on. None of them is recoverable
/// by retrying: each one names a broken set-up or a broken invariant.
#[derive(Clone, Copy, Debug, PartialEq, Eq, Structural)]
pub enum SimError {
    /// The event at the head of the queue targets a station that was never registered.
    UnknownDestination,
    /// A station with the same name is registered already.
    DuplicateStation,
    /// The station was handed an event before a policy was installed.
    HandlerMissing,
    /// A policy is installed already; it is set once.
    HandlerAlreadySet,
    /// A departure that is not the one of the customer in service.
    DepartureMismatch,
    /// A departure from a station that holds no customer.
    NegativeClients,
    /// Customers are counted as waiting, yet the waiting line is empty.
    WaitingLineEmpty,
    /// An event older than the last one seen by the station.
    ClockRegression,
    /// A counter, a time or an integral left the range of its integer type.
    Overflow,
    /// The system clock could not be read as a time since the epoch.
    ClockUnavailable,
}

impl SimError {
    /// A short sentence for a diagnostic.
    pub fn describe(&self) -> (text: String)
        ensures
            text@ == self.spec_describe()@,
    {
        match self {
            SimError::UnknownDestination => "no station is registered under the event's destination".to_owned(),
            SimError::DuplicateStation => "a station of that name is registered already".to_owned(),
            SimError::HandlerMissing => "handler not set".to_owned(),
            SimError::HandlerAlreadySet => "cannot set handler 2 times".to_owned(),
            SimError::DepartureMismatch => "event departure requested not in process".to_owned(),
            SimError::NegativeClients => "departure from a station without clients".to_owned(),
            SimError::WaitingLineEmpty => "event queue should not be empty while clients are waiting".to_owned(),
            SimError::ClockRegression => "event occurs before the station's clock".to_owned(),
            SimError::Overflow => "a counter or a time is out of range".to_owned(),
            SimError::ClockUnavailable => "error in catching system time".to_owned(),
        }
    }

    pub open spec fn spec_describe(&self) -> &'static str {
        match self {
            SimError::UnknownDestination => "no station is registered under the event's destination",
            SimError::DuplicateStation => "a station of that name is registered already",
            SimError::HandlerMissing => "handler not set",
            SimError::HandlerAlreadySet => "cannot set handler 2 times",
            SimError::DepartureMismatch => "event departure requested not in process",
            SimError::NegativeClients => "departure from a station without clients",
            SimError::WaitingLineEmpty => "event queue should not be empty while clients are waiting",
            SimError::ClockRegression => "event occurs before the station's clock",
            SimError::Overflow => "a counter or a time is out of range",
            SimError::ClockUnavailable => "error in catching system time",
        }
    }
}

} // verus!
