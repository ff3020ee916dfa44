use vstd::prelude::*;
use crate::Data::Statistics::StationStatistic;
use crate::Engines::{with_events, EventQueue};
use crate::Errors::SimError;
use crate::Events::{Event, EventType};
use crate::Stations::FCFSRuler::{
    arrival_data,
    arrival_scheduled,
    arrival_state,
    arrival_verdict,
    departure_scheduled,
    departure_state,
    departure_verdict,
    FCFSPolicyManager,
    FcfsState,
};
use crate::Stations::StationData::StationData;

verus! {

/// A station that comes with the first-come-first-served policy built in:
/// a single server, its line, and the statistics kept for them under a name.
pub struct FCFSStation {
    name: String,
    data: StationData,
    policy: FCFSPolicyManager,
}

impl FCFSStation {
    pub closed spec fn spec_name(&self) -> Seq<char> {
        self.name@
    }

    /// The statistics kept.
    pub closed spec fn header(&self) -> StationData {
        self.data
    }

    /// The server and its line.
    pub closed spec fn server(&self) -> FcfsState {
        self.policy@
    }

    /// The statistics are consistent.
    pub open spec fn wf(&self) -> bool {
        self.header().wf()
    }

    /// The outcome that the arrival transition owes for `evt`.
    pub open spec fn arrival_outcome(&self, evt: Event) -> Result<(), SimError> {
        if self.header().update_verdict(evt.occurTime) is Err {
            self.header().update_verdict(evt.occurTime)
        } else {
            arrival_verdict(self.server(), evt, self.header().updated(evt.occurTime))
        }
    }

    /// The outcome that the departure transition owes for `evt`.
    pub open spec fn departure_outcome(&self, evt: Event) -> Result<(), SimError> {
        if self.header().update_verdict(evt.occurTime) is Err {
            self.header().update_verdict(evt.occurTime)
        } else {
            departure_verdict(self.server(), evt, self.header().updated(evt.occurTime))
        }
    }

    /// An idle station called `name` that has seen nothing yet.
    pub fn new(name: String) -> (station: Self)
        ensures
            station.spec_name() == name@,
            station.header() == StationData::fresh(),
            station.server().serving is None,
            station.server().waiting == Seq::<Event>::empty(),
            station.wf(),
    {
        FCFSStation { name, data: StationData::new(), policy: FCFSPolicyManager::new() }
    }

    /// The customer `evt` arrives: the statistics move to the time of the
    /// event, and the server takes the customer or puts it in the line, as the
    /// first-come-first-served policy has it. What is refused changes nothing.
    pub fn ProcessArrival(&mut self, evt: Event, engine: &mut EventQueue) -> (r: Result<
        (),
        SimError,
    >)
        ensures
            r == old(self).arrival_outcome(evt),
            final(self).spec_name() == old(self).spec_name(),
            r is Ok ==> {
                let seen = old(self).header().updated(evt.occurTime);
                &&& final(self).header() == arrival_data(evt, seen)
                &&& final(self).server() == arrival_state(old(self).server(), evt, seen)
                &&& final(engine)@ == with_events(
                    old(engine)@,
                    arrival_scheduled(old(self).server(), evt, seen),
                )
            },
            r is Err ==> final(self).header() == old(self).header(),
            r is Err ==> final(self).server() == old(self).server(),
            r is Err ==> final(engine)@ == old(engine)@,
            old(self).wf() ==> final(self).wf(),
            old(engine).wf() ==> final(engine).wf(),
    {
        let mut data = self.data;
        match data.update(evt.occurTime) {
            Err(e) => {
                return Err(e);
            },
            Ok(_) => {},
        }
        match self.policy.ProcessArrival(&evt, &mut data, engine) {
            Err(e) => Err(e),
            Ok(_) => {
                self.data = data;
                Ok(())
            },
        }
    }

    /// The customer in service departs: the statistics move to the time of
    /// the event, the customer is counted out, and the head of the line, if
    /// any, goes into service. Only the departure that was scheduled for the
    /// customer in service is accepted. What is refused changes nothing.
    pub fn ProcessDeparture(&mut self, evt: Event, engine: &mut EventQueue) -> (r: Result<
        (),
        SimError,
    >)
        ensures
            r == old(self).departure_outcome(evt),
            final(self).spec_name() == old(self).spec_name(),
            r is Ok ==> {
                let seen = old(self).header().updated(evt.occurTime);
                &&& final(self).header() == seen.with_departure()
                &&& final(self).server() == departure_state(old(self).server(), seen)
                &&& final(engine)@ == with_events(
                    old(engine)@,
                    departure_scheduled(old(self).server(), seen),
                )
            },
            r is Err ==> final(self).header() == old(self).header(),
            r is Err ==> final(self).server() == old(self).server(),
            r is Err ==> final(engine)@ == old(engine)@,
            old(self).wf() ==> final(self).wf(),
            old(engine).wf() ==> final(engine).wf(),
    {
        let mut data = self.data;
        match data.update(evt.occurTime) {
            Err(e) => {
                return Err(e);
            },
            Ok(_) => {},
        }
        match self.policy.ProcessDeparture(&evt, &mut data, engine) {
            Err(e) => Err(e),
            Ok(_) => {
                self.data = data;
                Ok(())
            },
        }
    }

    /// Deals with `event` by its kind: an arrival and a departure go to
    /// their transitions; a probe moves the statistics to its time and hands
    /// out a snapshot of them; any other kind is passed over.
    pub fn Process(&mut self, event: Event, engine: &mut EventQueue) -> (r: Result<
        Option<StationStatistic>,
        SimError,
    >)
        requires
            old(self).wf(),
        ensures
            final(self).wf(),
            final(self).spec_name() == old(self).spec_name(),
            old(engine).wf() ==> final(engine).wf(),
            r is Err ==> final(self).header() == old(self).header() && final(self).server() == old(
                self,
            ).server() && final(engine)@ == old(engine)@,
            match event.kind {
                EventType::ARRIVAL => {
                    let seen = old(self).header().updated(event.occurTime);
                    &&& r is Err <==> old(self).arrival_outcome(event) is Err
                    &&& r is Err ==> r->Err_0 == old(self).arrival_outcome(event)->Err_0
                    &&& r is Ok ==> r->Ok_0 is None && final(self).header() == arrival_data(
                        event,
                        seen,
                    ) && final(self).server() == arrival_state(old(self).server(), event, seen)
                        && final(engine)@ == with_events(
                        old(engine)@,
                        arrival_scheduled(old(self).server(), event, seen),
                    )
                },
                EventType::DEPARTURE => {
                    let seen = old(self).header().updated(event.occurTime);
                    &&& r is Err <==> old(self).departure_outcome(event) is Err
                    &&& r is Err ==> r->Err_0 == old(self).departure_outcome(event)->Err_0
                    &&& r is Ok ==> r->Ok_0 is None && final(self).header() == seen.with_departure()
                        && final(self).server() == departure_state(old(self).server(), seen)
                        && final(engine)@ == with_events(
                        old(engine)@,
                        departure_scheduled(old(self).server(), seen),
                    )
                },
                EventType::PROBE => {
                    &&& r is Err <==> old(self).header().update_verdict(event.occurTime) is Err
                    &&& r is Err ==> r->Err_0 == old(self).header().update_verdict(
                        event.occurTime,
                    )->Err_0
                    &&& r is Ok ==> r->Ok_0 is Some && r->Ok_0->0.name@ == old(self).spec_name()
                        && r->Ok_0->0.describes(final(self).header()) && final(self).header()
                        == old(self).header().updated(event.occurTime) && final(self).server()
                        == old(self).server() && final(engine)@ == old(engine)@
                },
                _ => r == Ok::<Option<StationStatistic>, SimError>(None) && final(self).header()
                    == old(self).header() && final(self).server() == old(self).server()
                    && final(engine)@ == old(engine)@,
            },
    {
        match event.kind {
            EventType::ARRIVAL => match self.ProcessArrival(event, engine) {
                Ok(_) => Ok(None),
                Err(e) => Err(e),
            },
            EventType::DEPARTURE => match self.ProcessDeparture(event, engine) {
                Ok(_) => Ok(None),
                Err(e) => Err(e),
            },
            EventType::PROBE => match self.data.update(event.occurTime) {
                Ok(_) => Ok(Some(StationStatistic::from_data(&self.name, &self.data))),
                Err(e) => Err(e),
            },
            _ => Ok(None),
        }
    }

    /// The station's name.
    pub fn Name(&self) -> (name: String)
        ensures
            name@ == self.spec_name(),
    {
        self.name.clone()
    }

    /// The statistics as they stand.
    pub fn GetHeader(&self) -> (data: StationData)
        ensures
            data == self.header(),
    {
        self.data
    }
}

} // verus!
