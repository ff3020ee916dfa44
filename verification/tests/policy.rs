use neslib::Engines::{Engine, EventQueue};
use neslib::Errors::SimError;
use neslib::Events::{Event, EventType};
use neslib::Stations::Station::{IEventManager, Reaction, Station};
use neslib::Stations::StationData::StationData;

/// A policy that refuses every event, with the error that the engine itself
/// gives for a station without a policy, and touches nothing.
struct Stubborn;

impl vstd::view::View for Stubborn {
    type V = ();

    fn view(&self) {}
}

impl IEventManager for Stubborn {
    fn verdict(_state: (), _event: Event, _data: StationData) -> Result<Reaction, SimError> {
        Err(SimError::HandlerMissing)
    }

    fn next_state(_state: (), _event: Event, _data: StationData) {}

    fn next_data(_state: (), _event: Event, data: StationData) -> StationData {
        data
    }

    fn scheduled(_state: (), _event: Event, _data: StationData) -> vstd::seq::Seq<Event> {
        unreachable!()
    }

    fn process_event(
        &mut self,
        _event: &Event,
        _data: &mut StationData,
        _engine: &mut EventQueue,
    ) -> Result<Reaction, SimError> {
        Err(SimError::HandlerMissing)
    }
}

#[test]
fn an_event_that_a_policy_refuses_as_missing_stays() {
    let mut engine: Engine<Stubborn> = Engine::new();
    let mut station = Station::new("S");
    assert_eq!(station.set_handler(Stubborn), Ok(()));
    assert_eq!(engine.register_station(station), Ok(()));
    let event = Event::new(EventType::ARRIVAL, 1, 1, 1, 1, "S".to_string());
    engine.enqueue(event.clone());
    assert!(matches!(engine.tick(), Err(SimError::HandlerMissing)));
    assert_eq!(engine.next_event(), Some(&event));
    assert_eq!(engine.stations()[0].get_data().clock, 0);
    assert!(matches!(engine.tick(), Err(SimError::HandlerMissing)));
    assert!(engine.has_events());
}

#[test]
fn an_event_for_a_station_without_policy_is_dropped() {
    let mut engine: Engine<Stubborn> = Engine::new();
    assert_eq!(engine.register_station(Station::new("S")), Ok(()));
    let first = Event::new(EventType::ARRIVAL, 1, 1, 1, 1, "S".to_string());
    let second = Event::new(EventType::ARRIVAL, 2, 2, 1, 2, "S".to_string());
    engine.enqueue(first);
    engine.enqueue(second.clone());
    assert!(matches!(engine.tick(), Err(SimError::HandlerMissing)));
    assert_eq!(engine.next_event(), Some(&second));
    assert_eq!(engine.stations()[0].get_data().clock, 0);
    assert!(matches!(engine.tick(), Err(SimError::HandlerMissing)));
    assert!(!engine.has_events());
}
