use vstd::prelude::*;
use std::collections::VecDeque;
use crate::Data::Statistics::StationStatistic;
use crate::Errors::SimError;
use crate::Events::Event;
use crate::Stations::Station::{IEventManager, Reaction, Station};

verus! {

/// Events stand in the order in which they occur: no event stands before an earlier one.
pub open spec fn in_time_order(q: Seq<Event>) -> bool {
    forall|i: int, j: int| 0 <= i <= j < q.len() ==> q[i].occurTime <= q[j].occurTime
}

/// The place at which an event occurring at `occurTime` enters the line `q`:
/// just before the first event that occurs later, or at the end if there is none.
pub open spec fn slot_for(q: Seq<Event>, occurTime: u64) -> int
    decreases q.len(),
{
    if q.len() == 0 || q[0].occurTime > occurTime {
        0
    } else {
        1 + slot_for(q.drop_first(), occurTime)
    }
}

/// The line `q` after `event` has been scheduled.
pub open spec fn with_event(q: Seq<Event>, event: Event) -> Seq<Event> {
    q.insert(slot_for(q, event.occurTime), event)
}

/// The line `q` after the events of `events` have been scheduled one after another.
pub open spec fn with_events(q: Seq<Event>, events: Seq<Event>) -> Seq<Event>
    decreases events.len(),
{
    if events.len() == 0 {
        q
    } else {
        with_event(with_events(q, events.drop_last()), events.last())
    }
}

/// The events of `q` that occur at time `t`, in the order in which they stand in `q`.
pub open spec fn at_time(q: Seq<Event>, t: u64) -> Seq<Event> {
    q.filter(|e: Event| e.occurTime == t)
}

/// The engine's time-ordered line of pending events. It is the one handle
/// through which a queueing policy reaches the engine: a policy is handed
/// the queue to schedule the events that follow from the one it deals with,
/// and its contract allows it nothing else.
pub struct EventQueue {
    events: VecDeque<Event>,
}

impl View for EventQueue {
    type V = Seq<Event>;

    closed spec fn view(&self) -> Seq<Event> {
        self.events@
    }
}

impl EventQueue {
    /// The pending events stand in time order.
    pub open spec fn wf(&self) -> bool {
        in_time_order(self@)
    }

    pub fn new() -> (queue: Self)
        ensures
            queue@ == Seq::<Event>::empty(),
            queue.wf(),
    {
        EventQueue { events: VecDeque::new() }
    }

    /// Schedules `event`: it enters the line before the first pending event
    /// that occurs later, so behind every pending event of its own time.
    pub fn enqueue(&mut self, event: Event)
        ensures
            final(self)@ == with_event(old(self)@, event),
            old(self).wf() ==> final(self).wf(),
    {
        let mut i: usize = 0;
        while i < self.events.len() && self.events[i].occurTime <= event.occurTime
            invariant
                0 <= i <= self.events.len(),
                *self == *old(self),
                forall|k: int| 0 <= k < i ==> self@[k].occurTime <= event.occurTime,
            decreases self.events.len() - i,
        {
            i = i + 1;
        }
        proof {
            lemma_slot_for_is(self@, event.occurTime, i as int);
            if old(self).wf() {
                lemma_with_event_in_time_order(self@, event);
            }
        }
        self.events.insert(i, event);
    }

    pub fn has_events(&self) -> (pending: bool)
        ensures
            pending == (self@.len() > 0),
    {
        self.events.len() > 0
    }

    /// How many events are pending.
    pub fn len(&self) -> (count: usize)
        ensures
            count == self@.len(),
    {
        self.events.len()
    }

    /// The event that is due next, if any is pending.
    pub fn next_event(&self) -> (head: Option<&Event>)
        ensures
            self@.len() == 0 ==> head is None,
            self@.len() > 0 ==> head == Some(&self@[0]),
    {
        if self.events.len() == 0 {
            None
        } else {
            Some(&self.events[0])
        }
    }

    /// Removes the event that is due next and hands it out. In a queue that
    /// stands in time order no event that stays occurs before it.
    pub fn take_next(&mut self) -> (head: Option<Event>)
        ensures
            old(self)@.len() == 0 ==> head is None && final(self)@ == old(self)@,
            old(self)@.len() > 0 ==> head == Some(old(self)@[0]) && final(self)@ == old(self)@.drop_first(),
            old(self).wf() ==> final(self).wf(),
            old(self).wf() ==> forall|k: int|
                0 <= k < final(self)@.len() ==> old(self)@[0].occurTime <= final(self)@[k].occurTime,
    {
        let head = self.events.pop_front();
        proof {
            if old(self)@.len() > 0 {
                assert(final(self).events@ =~= old(self)@.drop_first());
                assert forall|k: int| 0 <= k < final(self)@.len() implies final(self)@[k] == old(self)@[k + 1] by {}
            }
        }
        head
    }

    /// Puts back at the head an event that was taken from it.
    pub(crate) fn put_back(&mut self, event: Event)
        ensures
            final(self)@ == seq![event] + old(self)@,
    {
        self.events.push_front(event);
    }
}

/// `slot_for` lies within the line; every event before it occurs no later than
/// `occurTime`, and the event at it, if any, occurs later.
pub proof fn lemma_slot_for_bounds(q: Seq<Event>, occurTime: u64)
    ensures
        0 <= slot_for(q, occurTime) <= q.len(),
        forall|k: int| 0 <= k < slot_for(q, occurTime) ==> q[k].occurTime <= occurTime,
        slot_for(q, occurTime) < q.len() ==> q[slot_for(q, occurTime)].occurTime > occurTime,
    decreases q.len(),
{
    if q.len() == 0 || q[0].occurTime > occurTime {
    } else {
        let rest = q.drop_first();
        lemma_slot_for_bounds(rest, occurTime);
        assert forall|k: int| 0 <= k < slot_for(q, occurTime) implies q[k].occurTime
            <= occurTime by {
            if k > 0 {
                assert(q[k] == rest[k - 1]);
            }
        }
        if slot_for(q, occurTime) < q.len() {
            assert(q[slot_for(q, occurTime)] == rest[slot_for(rest, occurTime)]);
        }
    }
}

/// The first place whose event occurs later than `occurTime` is `slot_for`.
pub proof fn lemma_slot_for_is(q: Seq<Event>, occurTime: u64, i: int)
    requires
        0 <= i <= q.len(),
        forall|k: int| 0 <= k < i ==> q[k].occurTime <= occurTime,
        i < q.len() ==> q[i].occurTime > occurTime,
    ensures
        slot_for(q, occurTime) == i,
{
    lemma_slot_for_bounds(q, occurTime);
    let s = slot_for(q, occurTime);
    if s < i {
        assert(q[s].occurTime <= occurTime);
    } else if i < s {
        assert(q[i].occurTime <= occurTime);
    }
}

/// Scheduling keeps the line in time order.
pub proof fn lemma_with_event_in_time_order(q: Seq<Event>, event: Event)
    requires
        in_time_order(q),
    ensures
        in_time_order(with_event(q, event)),
{
    lemma_slot_for_bounds(q, event.occurTime);
    let s = slot_for(q, event.occurTime);
    let r = with_event(q, event);
    assert forall|i: int, j: int| 0 <= i <= j < r.len() implies r[i].occurTime
        <= r[j].occurTime by {
        if j < s {
            assert(r[i] == q[i] && r[j] == q[j]);
        } else if j == s {
            if i < s {
                assert(r[i] == q[i]);
            }
        } else {
            assert(r[j] == q[j - 1]);
            assert(q[s].occurTime <= q[j - 1].occurTime);
            if i < s {
                assert(r[i] == q[i]);
            } else if i > s {
                assert(r[i] == q[i - 1]);
            }
        }
    }
}

/// Scheduling is stable: among the events that occur at one time, the new
/// event stands behind all that were scheduled before it, and the others keep
/// their order. Events at other times are left as they stood.
pub proof fn lemma_with_event_is_stable(q: Seq<Event>, event: Event, t: u64)
    requires
        in_time_order(q),
    ensures
        at_time(with_event(q, event), t) == if t == event.occurTime {
            at_time(q, t).push(event)
        } else {
            at_time(q, t)
        },
{
    lemma_slot_for_bounds(q, event.occurTime);
    let s = slot_for(q, event.occurTime);
    let pred = |e: Event| e.occurTime == t;
    let head = q.subrange(0, s);
    let tail = q.subrange(s, q.len() as int);
    let one = seq![event];
    assert(q =~= head + tail);
    assert(with_event(q, event) =~= (head + one) + tail);
    Seq::filter_distributes_over_add(head, tail, pred);
    Seq::filter_distributes_over_add(head + one, tail, pred);
    Seq::filter_distributes_over_add(head, one, pred);
    assert(one =~= Seq::<Event>::empty().push(event));
    Seq::<Event>::empty().lemma_filter_push(event, pred);
    assert(Seq::<Event>::empty().filter(pred) =~= Seq::<Event>::empty()) by {
        reveal(Seq::filter);
    }
    if t == event.occurTime {
        assert forall|e: Event| tail.contains(e) implies !pred(e) by {
            let k = choose|k: int| 0 <= k < tail.len() && tail[k] == e;
            assert(tail[k] == q[s + k]);
            assert(q[s].occurTime <= q[s + k].occurTime);
        }
        tail.lemma_all_neg_filter_empty(pred);
        assert(one.filter(pred) =~= one);
        assert(at_time(with_event(q, event), t) =~= head.filter(pred) + one);
        assert(at_time(q, t) =~= head.filter(pred));
        assert(head.filter(pred) + one =~= head.filter(pred).push(event));
    } else {
        assert(one.filter(pred) =~= Seq::<Event>::empty());
        assert(at_time(with_event(q, event), t) =~= head.filter(pred) + tail.filter(pred));
    }
}

/// The order in which events leave the queue is the stable sort of the order
/// in which they were scheduled: whatever the sequence `events` handed to an
/// empty queue, the line that results is in time order, and the events that
/// occur at one time stand in it in the order in which they were handed in.
pub proof fn lemma_schedule_is_stable_sort(events: Seq<Event>, t: u64)
    ensures
        in_time_order(with_events(Seq::empty(), events)),
        at_time(with_events(Seq::empty(), events), t) == at_time(events, t),
        with_events(Seq::empty(), events).len() == events.len(),
    decreases events.len(),
{
    let pred = |e: Event| e.occurTime == t;
    if events.len() == 0 {
        assert(events =~= Seq::<Event>::empty());
    } else {
        let before = events.drop_last();
        let line = with_events(Seq::empty(), before);
        lemma_schedule_is_stable_sort(before, t);
        lemma_with_event_in_time_order(line, events.last());
        lemma_with_event_is_stable(line, events.last(), t);
        lemma_slot_for_bounds(line, events.last().occurTime);
        assert(events =~= before.push(events.last()));
        before.lemma_filter_push(events.last(), pred);
    }
}

/// Every event of the line that results from scheduling `events` into `q`
/// occurs no earlier than `t`, if that holds of `q` and of `events`.
pub proof fn lemma_with_events_not_before(q: Seq<Event>, events: Seq<Event>, t: u64)
    requires
        forall|k: int| 0 <= k < q.len() ==> t <= q[k].occurTime,
        forall|k: int| 0 <= k < events.len() ==> t <= (#[trigger] events[k]).occurTime,
    ensures
        forall|k: int|
            0 <= k < with_events(q, events).len() ==> t <= with_events(q, events)[k].occurTime,
    decreases events.len(),
{
    if events.len() > 0 {
        let before = events.drop_last();
        assert forall|k: int| 0 <= k < before.len() implies t <= (
        #[trigger] before[k]).occurTime by {
            assert(before[k] == events[k]);
        }
        lemma_with_events_not_before(q, before, t);
        let line = with_events(q, before);
        let last = events.last();
        lemma_slot_for_bounds(line, last.occurTime);
        let s = slot_for(line, last.occurTime);
        let r = with_event(line, last);
        assert forall|k: int| 0 <= k < r.len() implies t <= r[k].occurTime by {
            if k < s {
                assert(r[k] == line[k]);
            } else if k == s {
                assert(r[k] == last);
            } else {
                assert(r[k] == line[k - 1]);
            }
        }
    }
}

/// The simulation kernel: the queue of pending events and the registry of
/// stations. It advances by taking the earliest pending event and handing it
/// to the station that the event names.
pub struct Engine<M: IEventManager> {
    queue: EventQueue,
    stations: Vec<Station<M>>,
}

/// The two registries cannot be told apart, station by station.
pub open spec fn registries_agree<M: IEventManager>(
    a: Seq<Station<M>>,
    b: Seq<Station<M>>,
) -> bool {
    &&& a.len() == b.len()
    &&& forall|j: int| 0 <= j < a.len() ==> (#[trigger] a[j]).agrees(&b[j])
}

/// Some station of the registry is called `name`.
pub open spec fn knows<M: IEventManager>(stations: Seq<Station<M>>, name: Seq<char>) -> bool {
    exists|j: int| 0 <= j < stations.len() && (#[trigger] stations[j]).spec_name() == name
}

/// The station at `i` is the first of the registry that is called `name`.
pub open spec fn routes_to<M: IEventManager>(
    stations: Seq<Station<M>>,
    name: Seq<char>,
    i: int,
) -> bool {
    &&& 0 <= i < stations.len()
    &&& stations[i].spec_name() == name
    &&& forall|j: int| 0 <= j < i ==> (#[trigger] stations[j]).spec_name() != name
}

impl<M: IEventManager> Engine<M> {
    /// The pending events, the one due next first.
    pub closed spec fn pending(&self) -> Seq<Event> {
        self.queue@
    }

    /// The registered stations, in the order of their registration.
    pub closed spec fn registry(&self) -> Seq<Station<M>> {
        self.stations@
    }

    /// The queue stands in time order, every station is consistent, and no
    /// two stations share a name.
    pub open spec fn wf(&self) -> bool {
        &&& in_time_order(self.pending())
        &&& forall|j: int| 0 <= j < self.registry().len() ==> (#[trigger] self.registry()[j]).wf()
        &&& forall|j: int, k: int|
            0 <= j < k < self.registry().len() ==> (#[trigger] self.registry()[j]).spec_name() != (
            #[trigger] self.registry()[k]).spec_name()
    }

    pub fn new() -> (engine: Self)
        ensures
            engine.pending() == Seq::<Event>::empty(),
            engine.registry() == Seq::<Station<M>>::empty(),
            engine.wf(),
    {
        Engine { queue: EventQueue::new(), stations: Vec::new() }
    }

    /// Schedules `event`: it enters the queue behind every pending event that
    /// occurs no later than it, and before every one that occurs later.
    pub fn enqueue(&mut self, event: Event)
        ensures
            final(self).pending() == with_event(old(self).pending(), event),
            final(self).registry() == old(self).registry(),
            old(self).wf() ==> final(self).wf(),
    {
        self.queue.enqueue(event);
        proof {
            if old(self).wf() {
                assert(self.registry() == old(self).registry());
            }
        }
    }

    pub fn has_events(&self) -> (pending: bool)
        ensures
            pending == (self.pending().len() > 0),
    {
        self.queue.has_events()
    }

    /// The event that the next `tick` deals with, if any is pending.
    pub fn next_event(&self) -> (head: Option<&Event>)
        ensures
            self.pending().len() == 0 ==> head is None,
            self.pending().len() > 0 ==> head == Some(&self.pending()[0]),
    {
        self.queue.next_event()
    }

    pub fn stations(&self) -> (stations: &Vec<Station<M>>)
        ensures
            stations@ == self.registry(),
    {
        &self.stations
    }

    /// Where the station called `name` stands in the registry.
    pub fn find_station(&self, name: &String) -> (found: Option<usize>)
        ensures
            found is Some <==> knows(self.registry(), name@),
            found is Some ==> routes_to(self.registry(), name@, found->0 as int),
    {
        let mut i: usize = 0;
        while i < self.stations.len()
            invariant
                0 <= i <= self.stations.len(),
                forall|j: int| 0 <= j < i ==> (#[trigger] self.registry()[j]).spec_name() != name@,
            decreases self.stations.len() - i,
        {
            if *self.stations[i].name() == *name {
                return Some(i);
            }
            i = i + 1;
        }
        None
    }

    /// The outcome that `tick` owes: nothing to do on an empty queue, a
    /// routing error where no station bears the name that the event due next
    /// gives as its destination, else what that station makes of the event.
    pub open spec fn tick_verdict(&self) -> Result<Reaction, SimError> {
        if self.pending().len() == 0 {
            Ok(Reaction::Nothing)
        } else if !knows(self.registry(), self.pending()[0].destination@) {
            Err(SimError::UnknownDestination)
        } else {
            self.target().handle_verdict(self.pending()[0])
        }
    }

    /// Whether `tick` drops the event due next without handing it to a
    /// policy: it does where the station that the event names has none.
    pub open spec fn drops_head(&self) -> bool {
        &&& self.pending().len() > 0
        &&& knows(self.registry(), self.pending()[0].destination@)
        &&& self.target().spec_handler() is None
    }

    /// The station that the event due next is meant for.
    pub open spec fn target(&self) -> Station<M> {
        self.registry()[self.target_index()]
    }

    /// The place in the registry of the station that the event due next is meant for.
    pub open spec fn target_index(&self) -> int {
        choose|i: int| routes_to(self.registry(), self.pending()[0].destination@, i)
    }

    /// The statistics that the target station shows to its policy: brought
    /// up to the time of the event due next.
    pub open spec fn target_data(&self) -> crate::Stations::StationData::StationData {
        self.target().spec_data().updated(self.pending()[0].occurTime)
    }

    /// One step of the simulation. On an empty queue nothing happens. Else the
    /// event due next is routed to the station that its destination names.
    ///
    /// An event that names no station is a routing error; it stays at the head
    /// of the queue, and nothing changes. An event that its station or its
    /// station's policy refuses stays there too, whatever the error, with
    /// station and queue as they were. Only an event for a station without a
    /// policy is reported and dropped. An accepted
    /// event leaves the queue; its station and the queue are then as the
    /// policy says, every other station is as it was, and no pending event
    /// occurs before the event just dealt with.
    pub fn tick(&mut self) -> (r: Result<Option<StationStatistic>, SimError>)
        requires
            old(self).wf(),
        ensures
            final(self).wf(),
            final(self).registry().len() == old(self).registry().len(),
            match old(self).tick_verdict() {
                Err(e) => r == Err::<Option<StationStatistic>, SimError>(e),
                Ok(Reaction::Nothing) => r == Ok::<Option<StationStatistic>, SimError>(None),
                Ok(Reaction::Snapshot) => r is Ok && r->Ok_0 is Some && r->Ok_0->0.name@ == old(
                    self,
                ).target().spec_name() && r->Ok_0->0.describes(
                    final(self).registry()[old(self).target_index()].spec_data(),
                ),
            },
            r is Err || old(self).pending().len() == 0 ==> registries_agree(
                final(self).registry(),
                old(self).registry(),
            ),
            old(self).pending().len() == 0 ==> final(self).pending() == old(self).pending(),
            r is Err ==> final(self).pending() == if old(self).drops_head() {
                old(self).pending().drop_first()
            } else {
                old(self).pending()
            },
            old(self).drops_head() ==> r == Err::<Option<StationStatistic>, SimError>(
                SimError::HandlerMissing,
            ),
            r is Ok && old(self).pending().len() > 0 ==> {
                let i = old(self).target_index();
                let event = old(self).pending()[0];
                let state = old(self).target().spec_handler()->0;
                let data = old(self).target_data();
                &&& routes_to(old(self).registry(), event.destination@, i)
                &&& final(self).pending() == with_events(
                    old(self).pending().drop_first(),
                    M::scheduled(state, event, data),
                )
                &&& final(self).registry()[i].spec_name() == old(self).registry()[i].spec_name()
                &&& final(self).registry()[i].spec_handler() == Some(
                    M::next_state(state, event, data),
                )
                &&& final(self).registry()[i].spec_data() == M::next_data(state, event, data)
                &&& forall|j: int|
                    0 <= j < old(self).registry().len() && j != i ==> (
                    #[trigger] final(self).registry()[j]).agrees(&old(self).registry()[j])
                &&& forall|k: int|
                    0 <= k < final(self).pending().len() ==> event.occurTime <= (
                    #[trigger] final(self).pending()[k]).occurTime
            },
    {
        let evt = match self.queue.next_event() {
            None => {
                return Ok(None);
            },
            Some(head) => head.clone(),
        };
        let i = match self.find_station(&evt.destination) {
            None => {
                return Err(SimError::UnknownDestination);
            },
            Some(i) => i,
        };
        proof {
            let name = evt.destination@;
            let c = old(self).target_index();
            assert(routes_to(self.registry(), name, i as int));
            assert(routes_to(self.registry(), name, c));
            assert(c == i) by {
                if c < i {
                    assert(self.registry()[c].spec_name() != name);
                } else if i < c {
                    assert(self.registry()[i as int].spec_name() != name);
                }
            }
        }
        let without_policy = self.stations[i].handler().is_none();
        let _ = self.queue.take_next();
        if without_policy {
            return Err(SimError::HandlerMissing);
        }
        let ghost rest = self.queue@;
        let station = &mut self.stations[i];
        let outcome = station.handle(&evt, &mut self.queue);
        match outcome {
            Err(e) => {
                self.queue.put_back(evt);
                assert(self.queue@ =~= old(self).queue@);
                Err(e)
            },
            Ok(snapshot) => {
                proof {
                    let state = old(self).target().spec_handler()->0;
                    let data = old(self).target_data();
                    lemma_with_events_not_before(rest, M::scheduled(state, evt, data), evt.occurTime);
                }
                Ok(snapshot)
            },
        }
    }

    /// Adds `station` at the end of the registry. A station whose name is
    /// taken is refused, so that an event's destination names one station.
    pub fn register_station(&mut self, station: Station<M>) -> (r: Result<(), SimError>)
        ensures
            r is Err <==> knows(old(self).registry(), station.spec_name()),
            r is Err ==> r == Err::<(), SimError>(SimError::DuplicateStation),
            r is Err ==> final(self).registry() == old(self).registry(),
            r is Ok ==> final(self).registry() == old(self).registry().push(station),
            final(self).pending() == old(self).pending(),
            old(self).wf() && station.wf() ==> final(self).wf(),
    {
        match self.find_station(station.name()) {
            Some(_) => Err(SimError::DuplicateStation),
            None => {
                self.stations.push(station);
                Ok(())
            },
        }
    }
}

/// The routing error is never a silent drop. Where the event due next names
/// no registered station, `tick` owes the routing error and the event stays
/// at the head of the queue. No event that `tick` drops is unroutable. And
/// `tick` succeeds exactly where the queue is empty, or a station bears the
/// name and accepts the event.
pub proof fn lemma_unroutable_event_is_reported<M: IEventManager>(engine: Engine<M>)
    ensures
        engine.pending().len() > 0 && !knows(engine.registry(), engine.pending()[0].destination@)
            ==> engine.tick_verdict() == Err::<Reaction, SimError>(SimError::UnknownDestination)
            && !engine.drops_head(),
        engine.drops_head() ==> knows(engine.registry(), engine.pending()[0].destination@)
            && engine.tick_verdict() == Err::<Reaction, SimError>(SimError::HandlerMissing),
        engine.tick_verdict() is Ok <==> engine.pending().len() == 0 || (knows(
            engine.registry(),
            engine.pending()[0].destination@,
        ) && engine.target().handle_verdict(engine.pending()[0]) is Ok),
{
}

/// An event that is scheduled for a station that nobody registered is
/// reported as soon as it is due: if `event` names no station of `before`
/// and enters its queue at the head, then in the engine `after` that results
/// from scheduling it, `tick` owes the routing error and drops nothing.
pub proof fn lemma_scheduled_unroutable_event_is_reported<M: IEventManager>(
    before: Engine<M>,
    after: Engine<M>,
    event: Event,
)
    requires
        !knows(before.registry(), event.destination@),
        slot_for(before.pending(), event.occurTime) == 0,
        after.pending() == with_event(before.pending(), event),
        after.registry() == before.registry(),
    ensures
        after.pending().len() > 0,
        after.pending()[0] == event,
        after.tick_verdict() == Err::<Reaction, SimError>(SimError::UnknownDestination),
        !after.drops_head(),
{
    lemma_slot_for_bounds(before.pending(), event.occurTime);
}

} // verus!
