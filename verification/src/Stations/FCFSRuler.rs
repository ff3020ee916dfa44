use vstd::prelude::*;
use crate::Collections::LightweightList::LwList;
use crate::Engines::{
    lemma_with_event_in_time_order,
    with_event,
    with_events,
    EventQueue,
};
use crate::Errors::SimError;
use crate::Events::{Event, EventType};
use crate::Stations::Station::{IEventManager, Reaction, Station};
use crate::Stations::StationData::StationData;

verus! {

/// The state of a single server that takes its customers in the order in
/// which they came: the customer in service, if any, as the departure that
/// was scheduled for it, and behind it the line of those who wait.
pub struct FcfsState {
    pub waiting: Seq<Event>,
    pub serving: Option<Event>,
}

/// `evt`, tagged as counted in the station's statistics.
pub open spec fn marked(evt: Event) -> Event {
    Event { subType: EventType::INPROCESS, ..evt }
}

/// The departure of the customer `evt` whose service starts at `clock`: it
/// occurs when the service time that the customer brought has passed.
pub open spec fn departure_of(evt: Event, clock: u64) -> Event {
    Event {
        kind: EventType::DEPARTURE,
        arrivalTime: clock,
        createTime: clock,
        occurTime: (clock + evt.serviceTime) as u64,
        ..evt
    }
}

/// Whether an arrival is accepted. It is refused only where a counter or the
/// time of the departure would leave its range.
pub open spec fn arrival_verdict(state: FcfsState, evt: Event, data: StationData) -> Result<
    (),
    SimError,
> {
    if evt.subType != EventType::INPROCESS && data.arrival_verdict() is Err {
        Err(SimError::Overflow)
    } else if state.serving is None && data.clock + evt.serviceTime > u64::MAX {
        Err(SimError::Overflow)
    } else {
        Ok(())
    }
}

/// The statistics after an accepted arrival: a customer that is not tagged
/// as counted is counted, one that is tagged is not counted again.
pub open spec fn arrival_data(evt: Event, data: StationData) -> StationData {
    if evt.subType != EventType::INPROCESS {
        data.with_arrival(evt.arrivalTime)
    } else {
        data
    }
}

/// The server after an accepted arrival: an idle server takes the customer
/// into service, a busy one puts it at the end of the line.
pub open spec fn arrival_state(state: FcfsState, evt: Event, data: StationData) -> FcfsState {
    if state.serving is None {
        FcfsState { waiting: state.waiting, serving: Some(departure_of(marked(evt), data.clock)) }
    } else {
        FcfsState { waiting: state.waiting.push(marked(evt)), serving: state.serving }
    }
}

/// What an accepted arrival schedules: the customer's departure where the
/// server was idle, nothing where it was busy.
pub open spec fn arrival_scheduled(state: FcfsState, evt: Event, data: StationData) -> Seq<Event> {
    if state.serving is None {
        seq![departure_of(marked(evt), data.clock)]
    } else {
        Seq::empty()
    }
}

/// Whether customers stay behind once one of those in `data` has left.
pub open spec fn clients_remain(data: StationData) -> bool {
    data.sysClients - 1 > 0
}

/// Whether a departure is accepted. It must be the departure of the customer
/// in service; the station must hold a customer; and where customers stay
/// behind, one of them must stand in the line.
pub open spec fn departure_verdict(state: FcfsState, evt: Event, data: StationData) -> Result<
    (),
    SimError,
> {
    if state.serving is None || !state.serving->0.same(&evt) {
        Err(SimError::DepartureMismatch)
    } else if data.departure_verdict() is Err {
        data.departure_verdict()
    } else if clients_remain(data) && state.waiting.len() == 0 {
        Err(SimError::WaitingLineEmpty)
    } else if clients_remain(data) && data.clock + state.waiting[0].serviceTime > u64::MAX {
        Err(SimError::Overflow)
    } else {
        Ok(())
    }
}

/// The server after an accepted departure: the head of the line goes into
/// service where customers stay behind, else the server is idle.
pub open spec fn departure_state(state: FcfsState, data: StationData) -> FcfsState {
    if clients_remain(data) {
        FcfsState {
            waiting: state.waiting.drop_first(),
            serving: Some(departure_of(state.waiting[0], data.clock)),
        }
    } else {
        FcfsState { waiting: state.waiting, serving: None }
    }
}

/// What an accepted departure schedules: the departure of the customer that
/// goes into service, if one does.
pub open spec fn departure_scheduled(state: FcfsState, data: StationData) -> Seq<Event> {
    if clients_remain(data) {
        seq![departure_of(state.waiting[0], data.clock)]
    } else {
        Seq::empty()
    }
}

/// Scheduling no event leaves the line as it is; scheduling one is `with_event`.
pub proof fn lemma_with_few_events(q: Seq<Event>, event: Event)
    ensures
        with_events(q, Seq::empty()) == q,
        with_events(q, seq![event]) == with_event(q, event),
{
    let one = seq![event];
    assert(one.drop_last() =~= Seq::<Event>::empty());
    assert(one.last() == event);
    assert(with_events(q, one.drop_last()) == q);
}

/// The first-come-first-served policy for a single server.
pub struct FCFSPolicyManager {
    eventQueue: LwList<Event>,
    eventUnderProcess: Option<Event>,
}

impl View for FCFSPolicyManager {
    type V = FcfsState;

    closed spec fn view(&self) -> FcfsState {
        FcfsState { waiting: self.eventQueue@, serving: self.eventUnderProcess }
    }
}

impl FCFSPolicyManager {
    /// An idle server with an empty line.
    pub fn new() -> (manager: Self)
        ensures
            manager@.waiting == Seq::<Event>::empty(),
            manager@.serving is None,
    {
        FCFSPolicyManager { eventQueue: LwList::new(), eventUnderProcess: None }
    }

    /// Whether a customer is in service.
    pub fn is_busy(&self) -> (busy: bool)
        ensures
            busy == self@.serving is Some,
    {
        self.eventUnderProcess.is_some()
    }

    /// How many customers wait behind the one in service.
    pub fn waiting(&self) -> (count: usize)
        ensures
            count == self@.waiting.len(),
    {
        self.eventQueue.len()
    }

    /// The arrival transition. The customer is counted in `data` unless it is
    /// tagged as counted already. An idle server takes it into service and
    /// schedules its departure at the station's clock plus its service time; a
    /// busy server puts it at the end of the line and schedules nothing.
    pub fn ProcessArrival(&mut self, evt: &Event, data: &mut StationData, engine: &mut EventQueue) -> (r:
        Result<(), SimError>)
        ensures
            r == arrival_verdict(old(self)@, *evt, *old(data)),
            r is Ok ==> final(self)@ == arrival_state(old(self)@, *evt, *old(data)),
            r is Ok ==> *final(data) == arrival_data(*evt, *old(data)),
            r is Ok ==> final(engine)@ == with_events(
                old(engine)@,
                arrival_scheduled(old(self)@, *evt, *old(data)),
            ),
            r is Err ==> final(self)@ == old(self)@,
            r is Err ==> *final(data) == *old(data),
            r is Err ==> final(engine)@ == old(engine)@,
            old(data).wf() ==> final(data).wf(),
            old(engine).wf() ==> final(engine).wf(),
    {
        let mut counted = *data;
        let mut event = evt.clone();
        if evt.subType != EventType::INPROCESS {
            match counted.client_arrived(evt.arrivalTime) {
                Err(_) => {
                    return Err(SimError::Overflow);
                },
                Ok(_) => {},
            }
            event.subType = EventType::INPROCESS;
        }
        assert(event == marked(*evt));
        if self.eventUnderProcess.is_none() {
            let clock = counted.clock;
            if event.serviceTime > u64::MAX - clock {
                return Err(SimError::Overflow);
            }
            let mut newevt = event;
            newevt.arrivalTime = clock;
            newevt.occurTime = clock + newevt.serviceTime;
            newevt.createTime = clock;
            newevt.kind = EventType::DEPARTURE;
            assert(newevt == departure_of(marked(*evt), old(data).clock));
            proof {
                lemma_with_few_events(engine@, newevt);
                if engine.wf() {
                    lemma_with_event_in_time_order(engine@, newevt);
                }
            }
            engine.enqueue(newevt.clone());
            self.eventUnderProcess = Some(newevt);
        } else {
            proof {
                lemma_with_few_events(engine@, event);
            }
            self.eventQueue.push(event);
        }
        *data = counted;
        Ok(())
    }

    /// The departure transition. Only the departure of the customer in
    /// service is accepted; any other event is refused and changes nothing.
    /// The customer is counted out of `data`. Where customers stay behind, the
    /// head of the line goes into service and its departure is scheduled at
    /// the station's clock plus its service time; else the server turns idle.
    pub fn ProcessDeparture(&mut self, evt: &Event, data: &mut StationData, engine: &mut EventQueue) -> (r:
        Result<(), SimError>)
        ensures
            r == departure_verdict(old(self)@, *evt, *old(data)),
            r is Ok ==> final(self)@ == departure_state(old(self)@, *old(data)),
            r is Ok ==> *final(data) == old(data).with_departure(),
            r is Ok ==> final(engine)@ == with_events(
                old(engine)@,
                departure_scheduled(old(self)@, *old(data)),
            ),
            r is Err ==> final(self)@ == old(self)@,
            r is Err ==> *final(data) == *old(data),
            r is Err ==> final(engine)@ == old(engine)@,
            old(data).wf() ==> final(data).wf(),
            old(engine).wf() ==> final(engine).wf(),
    {
        let in_service = match &self.eventUnderProcess {
            None => false,
            Some(current) => *current == *evt,
        };
        if !in_service {
            return Err(SimError::DepartureMismatch);
        }
        let mut counted = *data;
        match counted.client_departure() {
            Err(e) => {
                return Err(e);
            },
            Ok(_) => {},
        }
        if counted.sysClients > 0 {
            let clock = counted.clock;
            let fits = match self.eventQueue.front() {
                None => {
                    return Err(SimError::WaitingLineEmpty);
                },
                Some(head) => head.serviceTime <= u64::MAX - clock,
            };
            if !fits {
                return Err(SimError::Overflow);
            }
            let taken = self.eventQueue.take_front();
            let mut new_evt = taken.unwrap();
            new_evt.arrivalTime = clock;
            new_evt.createTime = clock;
            new_evt.occurTime = clock + new_evt.serviceTime;
            new_evt.kind = EventType::DEPARTURE;
            assert(new_evt == departure_of(old(self)@.waiting[0], old(data).clock));
            proof {
                lemma_with_few_events(engine@, new_evt);
                if engine.wf() {
                    lemma_with_event_in_time_order(engine@, new_evt);
                }
            }
            engine.enqueue(new_evt.clone());
            self.eventUnderProcess = Some(new_evt);
        } else {
            proof {
                lemma_with_few_events(engine@, *evt);
            }
            self.eventUnderProcess = None;
        }
        *data = counted;
        Ok(())
    }
}

impl IEventManager for FCFSPolicyManager {
    open spec fn verdict(state: FcfsState, event: Event, data: StationData) -> Result<
        Reaction,
        SimError,
    > {
        match event.kind {
            EventType::ARRIVAL => match arrival_verdict(state, event, data) {
                Ok(_) => Ok(Reaction::Nothing),
                Err(e) => Err(e),
            },
            EventType::DEPARTURE => match departure_verdict(state, event, data) {
                Ok(_) => Ok(Reaction::Nothing),
                Err(e) => Err(e),
            },
            EventType::PROBE => Ok(Reaction::Snapshot),
            _ => Ok(Reaction::Nothing),
        }
    }

    open spec fn next_state(state: FcfsState, event: Event, data: StationData) -> FcfsState {
        match event.kind {
            EventType::ARRIVAL => arrival_state(state, event, data),
            EventType::DEPARTURE => departure_state(state, data),
            _ => state,
        }
    }

    open spec fn next_data(state: FcfsState, event: Event, data: StationData) -> StationData {
        match event.kind {
            EventType::ARRIVAL => arrival_data(event, data),
            EventType::DEPARTURE => data.with_departure(),
            _ => data,
        }
    }

    open spec fn scheduled(state: FcfsState, event: Event, data: StationData) -> Seq<Event> {
        match event.kind {
            EventType::ARRIVAL => arrival_scheduled(state, event, data),
            EventType::DEPARTURE => departure_scheduled(state, data),
            _ => Seq::empty(),
        }
    }

    /// Arrivals and departures go to their transitions; a probe asks the
    /// station for a snapshot; every other kind of event is ignored.
    fn process_event(&mut self, event: &Event, data: &mut StationData, engine: &mut EventQueue) -> (r:
        Result<Reaction, SimError>) {
        match event.kind {
            EventType::ARRIVAL => match self.ProcessArrival(event, data, engine) {
                Ok(_) => Ok(Reaction::Nothing),
                Err(e) => Err(e),
            },
            EventType::DEPARTURE => match self.ProcessDeparture(event, data, engine) {
                Ok(_) => Ok(Reaction::Nothing),
                Err(e) => Err(e),
            },
            EventType::PROBE => {
                proof {
                    lemma_with_few_events(engine@, *event);
                }
                Ok(Reaction::Snapshot)
            },
            _ => {
                proof {
                    lemma_with_few_events(engine@, *event);
                }
                Ok(Reaction::Nothing)
            },
        }
    }
}

/// The customers counted in the station are the one in service and those in the line.
pub open spec fn occupancy_agrees(state: FcfsState, data: StationData) -> bool {
    data.sysClients == state.waiting.len() + if state.serving is Some {
        1int
    } else {
        0int
    }
}

/// Conservation of customers. Whatever events a first-come-first-served
/// station is handed, accepted or refused, at every point no more customers
/// have left it than have come, and those inside are those who came and have
/// not left.
pub proof fn lemma_customers_are_conserved(state: FcfsState, data: StationData, events: Seq<Event>)
    requires
        data.wf(),
    ensures
        ({
            let d = Station::<FCFSPolicyManager>::after_events(state, data, events).1;
            &&& d.wf()
            &&& 0 <= d.completions <= d.arrivals
            &&& d.sysClients == d.arrivals - d.completions
        }),
    decreases events.len(),
{
    if events.len() > 0 {
        lemma_customers_are_conserved(state, data, events.drop_last());
    }
}

/// As long as no arrival comes tagged as counted, the count of customers
/// in the station stays the number of those in service and in the line:
/// a departure that leaves customers behind finds one of them in the line.
pub proof fn lemma_occupancy_is_kept(state: FcfsState, data: StationData, events: Seq<Event>)
    requires
        data.wf(),
        occupancy_agrees(state, data),
        forall|k: int|
            0 <= k < events.len() && (#[trigger] events[k]).kind == EventType::ARRIVAL
                ==> events[k].subType != EventType::INPROCESS,
    ensures
        ({
            let (s, d) = Station::<FCFSPolicyManager>::after_events(state, data, events);
            occupancy_agrees(s, d) && d.wf()
        }),
    decreases events.len(),
{
    if events.len() > 0 {
        let before = events.drop_last();
        assert forall|k: int|
            0 <= k < before.len() && (#[trigger] before[k]).kind
                == EventType::ARRIVAL implies before[k].subType != EventType::INPROCESS by {
            assert(before[k] == events[k]);
        }
        lemma_occupancy_is_kept(state, data, before);
        assert(events.last() == events[events.len() - 1]);
    }
}

} // verus!
