use vstd::prelude::*;
use crate::Data::Statistics::StationStatistic;
use crate::Engines::{with_events, EventQueue};
use crate::Errors::SimError;
use crate::Events::Event;
use crate::Stations::StationData::StationData;

verus! {

/// What a policy asks of its station once it has dealt with an event.
#[derive(Clone, Copy, Debug, PartialEq, Eq, Structural)]
pub enum Reaction {
    /// Nothing more is to be done.
    Nothing,
    /// The station is to hand out a snapshot of its statistics.
    Snapshot,
}

/// A queueing policy: the state machine that decides, for one station, what an
/// event does to the station's statistics and which events follow from it.
///
/// The four spec functions say what the policy does, over its view; the
/// contract of `process_event` holds every implementation to them. A policy
/// never schedules an event before the station's clock, and whatever it
/// refuses it leaves untouched.
pub trait IEventManager: View + Sized {
    /// Whether the policy accepts `event` in `state`, and what it then asks of the station.
    spec fn verdict(state: Self::V, event: Event, data: StationData) -> Result<Reaction, SimError>;

    /// The policy's state after an accepted event.
    spec fn next_state(state: Self::V, event: Event, data: StationData) -> Self::V;

    /// The station's statistics after an accepted event.
    spec fn next_data(state: Self::V, event: Event, data: StationData) -> StationData;

    /// The events that an accepted event makes the policy schedule, in order.
    spec fn scheduled(state: Self::V, event: Event, data: StationData) -> Seq<Event>;

    fn process_event(&mut self, event: &Event, data: &mut StationData, engine: &mut EventQueue) -> (r:
        Result<Reaction, SimError>)
        ensures
            r == Self::verdict(old(self)@, *event, *old(data)),
            r is Ok ==> final(self)@ == Self::next_state(old(self)@, *event, *old(data)),
            r is Ok ==> *final(data) == Self::next_data(old(self)@, *event, *old(data)),
            r is Ok ==> final(engine)@ == with_events(
                old(engine)@,
                Self::scheduled(old(self)@, *event, *old(data)),
            ),
            r is Ok ==> forall|i: int|
                0 <= i < Self::scheduled(old(self)@, *event, *old(data)).len() ==> old(data).clock
                    <= (#[trigger] Self::scheduled(old(self)@, *event, *old(data))[i]).occurTime,
            r is Err ==> final(self)@ == old(self)@,
            r is Err ==> *final(data) == *old(data),
            r is Err ==> final(engine)@ == old(engine)@,
            old(data).wf() ==> final(data).wf(),
            old(engine).wf() ==> final(engine).wf(),
    ;
}

/// An addressable service point: a name, the statistics kept under it, and
/// the policy that was installed for it.
pub struct Station<M: IEventManager> {
    name: String,
    data: StationData,
    event_handler: Option<M>,
}

impl<M: IEventManager> Station<M> {
    /// The statistics are consistent.
    pub open spec fn wf(&self) -> bool {
        self.spec_data().wf()
    }

    pub closed spec fn spec_name(&self) -> Seq<char> {
        self.name@
    }

    pub closed spec fn spec_data(&self) -> StationData {
        self.data
    }

    /// The view of the installed policy, if one was installed.
    pub closed spec fn spec_handler(&self) -> Option<M::V> {
        match self.event_handler {
            Some(handler) => Some(handler@),
            None => None,
        }
    }

    /// Two stations that cannot be told apart: same name, same statistics,
    /// same policy state.
    pub open spec fn agrees(&self, other: &Station<M>) -> bool {
        &&& self.spec_name() == other.spec_name()
        &&& self.spec_data() == other.spec_data()
        &&& self.spec_handler() == other.spec_handler()
    }

    /// Policy state and statistics of a station after it was handed `event`:
    /// as the policy says where the event is accepted, as before where the
    /// station or the policy refuses it.
    pub open spec fn after_event(state: M::V, data: StationData, event: Event) -> (
        M::V,
        StationData,
    ) {
        let seen = data.updated(event.occurTime);
        if data.update_verdict(event.occurTime) is Ok && M::verdict(state, event, seen) is Ok {
            (M::next_state(state, event, seen), M::next_data(state, event, seen))
        } else {
            (state, data)
        }
    }

    /// Policy state and statistics after the station was handed the events
    /// of `events` one after another.
    pub open spec fn after_events(state: M::V, data: StationData, events: Seq<Event>) -> (
        M::V,
        StationData,
    )
        decreases events.len(),
    {
        if events.len() == 0 {
            (state, data)
        } else {
            let (s, d) = Self::after_events(state, data, events.drop_last());
            Self::after_event(s, d, events.last())
        }
    }

    /// The outcome that `handle` owes for `event`.
    pub open spec fn handle_verdict(&self, event: Event) -> Result<Reaction, SimError> {
        match self.spec_handler() {
            None => Err(SimError::HandlerMissing),
            Some(state) => match self.spec_data().update_verdict(event.occurTime) {
                Err(e) => Err(e),
                Ok(_) => M::verdict(state, event, self.spec_data().updated(event.occurTime)),
            },
        }
    }

    pub fn new(name: &str) -> (station: Self)
        ensures
            station.spec_name() == name@,
            station.spec_data() == StationData::fresh(),
            station.spec_handler() is None,
            station.wf(),
    {
        Station { name: name.to_owned(), data: StationData::new(), event_handler: None }
    }

    /// Installs the station's policy. A policy is set once: a second one is refused.
    pub fn set_handler(&mut self, handler: M) -> (r: Result<(), SimError>)
        ensures
            r is Ok <==> old(self).spec_handler() is None,
            r is Err ==> r == Err::<(), SimError>(SimError::HandlerAlreadySet),
            r is Ok ==> final(self).spec_handler() == Some(handler@),
            r is Err ==> final(self).spec_handler() == old(self).spec_handler(),
            final(self).spec_name() == old(self).spec_name(),
            final(self).spec_data() == old(self).spec_data(),
    {
        if self.event_handler.is_none() {
            self.event_handler = Some(handler);
            Ok(())
        } else {
            Err(SimError::HandlerAlreadySet)
        }
    }

    /// Hands `event` to the station. The statistics are first brought up to
    /// the time of the event, so that the policy sees the occupancy-weighted
    /// integrals as they stand at that time; the policy then decides. A
    /// station without a policy refuses, and so does one whose clock is past
    /// the event; whatever is refused leaves station and queue as they were.
    /// Where the policy asks for a snapshot, the result holds the figures of
    /// the statistics as the event left them.
    pub fn handle(&mut self, event: &Event, engine: &mut EventQueue) -> (r: Result<
        Option<StationStatistic>,
        SimError,
    >)
        requires
            old(self).wf(),
        ensures
            final(self).wf(),
            final(self).spec_name() == old(self).spec_name(),
            match old(self).handle_verdict(*event) {
                Err(e) => r == Err::<Option<StationStatistic>, SimError>(e),
                Ok(Reaction::Nothing) => r == Ok::<Option<StationStatistic>, SimError>(None),
                Ok(Reaction::Snapshot) => r is Ok && r->Ok_0 is Some && r->Ok_0->0.name@ == old(
                    self,
                ).spec_name() && r->Ok_0->0.describes(final(self).spec_data()),
            },
            r is Err ==> final(self).spec_data() == old(self).spec_data(),
            r is Err ==> final(self).spec_handler() == old(self).spec_handler(),
            r is Err ==> final(engine)@ == old(engine)@,
            r is Ok ==> final(self).spec_handler() == Some(
                M::next_state(
                    old(self).spec_handler()->0,
                    *event,
                    old(self).spec_data().updated(event.occurTime),
                ),
            ),
            r is Ok ==> final(self).spec_data() == M::next_data(
                old(self).spec_handler()->0,
                *event,
                old(self).spec_data().updated(event.occurTime),
            ),
            r is Ok ==> final(engine)@ == with_events(
                old(engine)@,
                M::scheduled(
                    old(self).spec_handler()->0,
                    *event,
                    old(self).spec_data().updated(event.occurTime),
                ),
            ),
            r is Ok ==> forall|i: int|
                0 <= i < M::scheduled(
                    old(self).spec_handler()->0,
                    *event,
                    old(self).spec_data().updated(event.occurTime),
                ).len() ==> event.occurTime <= (#[trigger] M::scheduled(
                    old(self).spec_handler()->0,
                    *event,
                    old(self).spec_data().updated(event.occurTime),
                )[i]).occurTime,
            old(engine).wf() ==> final(engine).wf(),
            old(self).spec_handler() is Some ==> (
                final(self).spec_handler()->0,
                final(self).spec_data(),
            ) == Self::after_event(old(self).spec_handler()->0, old(self).spec_data(), *event),
    {
        let mut data = self.data;
        let outcome = match &mut self.event_handler {
            None => Err(SimError::HandlerMissing),
            Some(handler) => match data.update(event.occurTime) {
                Err(e) => Err(e),
                Ok(_) => handler.process_event(event, &mut data, engine),
            },
        };
        match outcome {
            Err(e) => Err(e),
            Ok(reaction) => {
                self.data = data;
                match reaction {
                    Reaction::Nothing => Ok(None),
                    Reaction::Snapshot => Ok(Some(StationStatistic::from_data(&self.name, &self.data))),
                }
            },
        }
    }

    pub fn get_data(&self) -> (data: &StationData)
        ensures
            *data == self.spec_data(),
    {
        &self.data
    }

    pub fn name(&self) -> (name: &String)
        ensures
            name@ == self.spec_name(),
    {
        &self.name
    }

    /// The installed policy, if any.
    pub fn handler(&self) -> (handler: Option<&M>)
        ensures
            handler is Some == self.spec_handler() is Some,
            handler is Some ==> self.spec_handler() == Some(handler->0@),
    {
        self.event_handler.as_ref()
    }
}

} // verus!
