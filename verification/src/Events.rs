use vstd::prelude::*;
use vstd::std_specs::cmp::PartialEqSpecImpl;
use crate::Errors::SimError;

verus! {

/// What an event stands for. `INPROCESS` is never the kind of an event: it is the
/// tag a queueing policy puts in `subType` once the customer has been counted.
#[derive(Clone, Copy, Debug, PartialEq, Eq, Structural)]
pub enum EventType {
    ARRIVAL,
    DEPARTURE,
    END,
    PROBE,
    MAINTENANCE,
    NOEVENT,
    INPROCESS,
}

impl EventType {
    /// The variant's name as it is shown to a user.
    pub fn label(&self) -> (text: String)
        ensures
            text@ == self.spec_label()@,
    {
        match self {
            EventType::ARRIVAL => "Arrival".to_owned(),
            EventType::DEPARTURE => "Departure".to_owned(),
            EventType::END => "End".to_owned(),
            EventType::PROBE => "Probe".to_owned(),
            EventType::MAINTENANCE => "Maintenance".to_owned(),
            EventType::NOEVENT => "NoEvent".to_owned(),
            EventType::INPROCESS => "InProcess".to_owned(),
        }
    }

    pub open spec fn spec_label(&self) -> &'static str {
        match self {
            EventType::ARRIVAL => "Arrival",
            EventType::DEPARTURE => "Departure",
            EventType::END => "End",
            EventType::PROBE => "Probe",
            EventType::MAINTENANCE => "Maintenance",
            EventType::NOEVENT => "NoEvent",
            EventType::INPROCESS => "InProcess",
        }
    }
}

/// A scheduled occurrence. All times are whole ticks of the simulation clock;
/// `occurTime` is the key by which the engine orders its queue.
#[derive(Debug)]
pub struct Event {
    pub kind: EventType,
    pub createTime: u64,
    pub occurTime: u64,
    pub serviceTime: u64,
    pub arrivalTime: u64,
    pub subType: EventType,
    pub destination: String,
}

impl Event {
    /// Two events are the same when every field agrees, the destination
    /// being compared character by character.
    pub open spec fn same(&self, other: &Event) -> bool {
        &&& self.kind == other.kind
        &&& self.createTime == other.createTime
        &&& self.occurTime == other.occurTime
        &&& self.serviceTime == other.serviceTime
        &&& self.arrivalTime == other.arrivalTime
        &&& self.subType == other.subType
        &&& self.destination@ == other.destination@
    }

    pub fn new(
        kind: EventType,
        createTime: u64,
        occurTime: u64,
        serviceTime: u64,
        arrivalTime: u64,
        destination: String,
    ) -> (event: Self)
        ensures
            event == (Event {
                kind,
                createTime,
                occurTime,
                serviceTime,
                arrivalTime,
                subType: EventType::NOEVENT,
                destination,
            }),
    {
        Event {
            kind,
            createTime,
            occurTime,
            serviceTime,
            arrivalTime,
            subType: EventType::NOEVENT,
            destination,
        }
    }

    /// An arrival made at `clock`: it occurs `until_occurs` later, brings a
    /// service time of `service`, and gives `clock + until_arrives` as the
    /// time at which the customer arrives. It is addressed to nobody yet. A
    /// time beyond the range of the clock is refused.
    pub fn gen_arrival(clock: u64, until_occurs: u64, service: u64, until_arrives: u64) -> (r:
        Result<Self, SimError>)
        ensures
            r is Ok <==> clock + until_occurs <= u64::MAX && clock + until_arrives <= u64::MAX,
            r is Err ==> r->Err_0 == SimError::Overflow,
            r is Ok ==> {
                let event = r->Ok_0;
                &&& event.kind == EventType::ARRIVAL
                &&& event.createTime == clock
                &&& event.occurTime == clock + until_occurs
                &&& event.serviceTime == service
                &&& event.arrivalTime == clock + until_arrives
                &&& event.subType == EventType::ARRIVAL
                &&& event.destination@ == "None"@
            },
    {
        if until_occurs > u64::MAX - clock || until_arrives > u64::MAX - clock {
            return Err(SimError::Overflow);
        }
        Ok(
            Event {
                kind: EventType::ARRIVAL,
                createTime: clock,
                occurTime: clock + until_occurs,
                serviceTime: service,
                arrivalTime: clock + until_arrives,
                subType: EventType::ARRIVAL,
                destination: "None".to_owned(),
            },
        )
    }

    /// A departure made at `clock`: it occurs `until_occurs` later, of a
    /// customer that arrived `since_arrival` before `clock`. It brings no
    /// service time and is addressed to nobody yet. A time beyond the range
    /// of the clock, or before its start, is refused.
    pub fn gen_departure(clock: u64, until_occurs: u64, since_arrival: u64) -> (r: Result<
        Self,
        SimError,
    >)
        ensures
            r is Ok <==> clock + until_occurs <= u64::MAX && since_arrival <= clock,
            r is Err ==> r->Err_0 == SimError::Overflow,
            r is Ok ==> {
                let event = r->Ok_0;
                &&& event.kind == EventType::DEPARTURE
                &&& event.createTime == clock
                &&& event.occurTime == clock + until_occurs
                &&& event.serviceTime == 0
                &&& event.arrivalTime == clock - since_arrival
                &&& event.subType == EventType::NOEVENT
                &&& event.destination@ == "None"@
            },
    {
        if until_occurs > u64::MAX - clock || since_arrival > clock {
            return Err(SimError::Overflow);
        }
        Ok(
            Event {
                kind: EventType::DEPARTURE,
                createTime: clock,
                occurTime: clock + until_occurs,
                serviceTime: 0,
                arrivalTime: clock - since_arrival,
                subType: EventType::NOEVENT,
                destination: "None".to_owned(),
            },
        )
    }
}

impl Clone for Event {
    fn clone(&self) -> (copy: Self)
        ensures
            copy == *self,
    {
        Event {
            kind: self.kind,
            createTime: self.createTime,
            occurTime: self.occurTime,
            serviceTime: self.serviceTime,
            arrivalTime: self.arrivalTime,
            subType: self.subType,
            destination: self.destination.clone(),
        }
    }
}

impl PartialEq for Event {
    fn eq(&self, other: &Event) -> (equal: bool) {
        self.kind == other.kind && self.createTime == other.createTime && self.occurTime
            == other.occurTime && self.serviceTime == other.serviceTime && self.arrivalTime
            == other.arrivalTime && self.subType == other.subType && self.destination
            == other.destination
    }
}

impl PartialEqSpecImpl for Event {
    open spec fn obeys_eq_spec() -> bool {
        true
    }

    open spec fn eq_spec(&self, other: &Event) -> bool {
        self.same(other)
    }
}

} // verus!
