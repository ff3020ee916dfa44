use vstd::prelude::*;
use crate::Errors::SimError;
use crate::Events::{Event, EventType};
use crate::Stations::StationData::StationData;

verus! {

/// Something that keeps a station's statistics up to date with the events
/// it is shown.
pub trait IStationProcessor {
    /// The statistics kept.
    spec fn header(&self) -> StationData;

    /// Takes note of `event`. What is refused changes nothing, and consistent
    /// statistics stay consistent.
    fn Process(&mut self, event: Event) -> (r: Result<(), SimError>)
        ensures
            r is Err ==> final(self).header() == old(self).header(),
            old(self).header().wf() ==> final(self).header().wf(),
    ;
}

/// The bookkeeping that every station shares: the clock and the integrals
/// move to the time of each event, an arrival counts a customer in, a
/// departure counts one out.
pub struct CoreStationProcessor {
    data: StationData,
}

/// Whether statistics `data` can take note of `event`.
pub open spec fn process_verdict(data: StationData, event: Event) -> Result<(), SimError> {
    let seen = data.updated(event.occurTime);
    if data.update_verdict(event.occurTime) is Err {
        data.update_verdict(event.occurTime)
    } else if event.kind == EventType::ARRIVAL {
        seen.arrival_verdict()
    } else if event.kind == EventType::DEPARTURE {
        seen.departure_verdict()
    } else {
        Ok(())
    }
}

/// The statistics `data` after note was taken of `event`.
pub open spec fn processed(data: StationData, event: Event) -> StationData {
    let seen = data.updated(event.occurTime);
    if event.kind == EventType::ARRIVAL {
        seen.with_arrival(event.arrivalTime)
    } else if event.kind == EventType::DEPARTURE {
        seen.with_departure()
    } else {
        seen
    }
}

impl CoreStationProcessor {
    pub fn new() -> (processor: Self)
        ensures
            processor.header() == StationData::fresh(),
    {
        Self { data: StationData::new() }
    }

    fn ProcessArrival(data: &mut StationData, event: &Event) -> (r: Result<(), SimError>)
        ensures
            r == old(data).arrival_verdict(),
            r is Ok ==> *final(data) == old(data).with_arrival(event.arrivalTime),
            r is Err ==> *final(data) == *old(data),
            old(data).wf() ==> final(data).wf(),
    {
        data.client_arrived(event.arrivalTime)
    }

    fn ProcessDeparture(data: &mut StationData) -> (r: Result<(), SimError>)
        ensures
            r == old(data).departure_verdict(),
            r is Ok ==> *final(data) == old(data).with_departure(),
            r is Err ==> *final(data) == *old(data),
            old(data).wf() ==> final(data).wf(),
    {
        data.client_departure()
    }

    /// The statistics as they stand.
    pub fn GetHeader(&self) -> (data: StationData)
        ensures
            data == self.header(),
    {
        self.data
    }
}

impl IStationProcessor for CoreStationProcessor {
    closed spec fn header(&self) -> StationData {
        self.data
    }

    /// Moves clock and integrals to the time of `event`, then counts the
    /// customer in or out where the event is an arrival or a departure.
    fn Process(&mut self, event: Event) -> (r: Result<(), SimError>)
        ensures
            r == process_verdict(old(self).header(), event),
            r is Ok ==> final(self).header() == processed(old(self).header(), event),
    {
        let mut data = self.data;
        match data.update(event.occurTime) {
            Err(e) => {
                return Err(e);
            },
            Ok(_) => {},
        }
        let counted = match event.kind {
            EventType::ARRIVAL => Self::ProcessArrival(&mut data, &event),
            EventType::DEPARTURE => Self::ProcessDeparture(&mut data),
            _ => Ok(()),
        };
        match counted {
            Err(e) => Err(e),
            Ok(_) => {
                self.data = data;
                Ok(())
            },
        }
    }
}

} // verus!
