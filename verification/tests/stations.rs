use neslib::Data::Statistics::StationStatistic;
use neslib::Engines::{Engine, EventQueue};
use neslib::Errors::SimError;
use neslib::Events::{Event, EventType};
use neslib::Random::rngs::{RandomGenerator, MODULUS};
use neslib::Stations::FCFSRuler::FCFSPolicyManager;
use neslib::Stations::FCFSStation::FCFSStation;
use neslib::Stations::Processor::{CoreStationProcessor, IStationProcessor};
use neslib::Stations::Station::{IEventManager, Reaction, Station};
use neslib::Stations::StationData::StationData;
use neslib::Stations::StationHeader::StationHeader;

fn exponential(generator: &mut RandomGenerator, mean: f64) -> u64 {
    let u = generator.Random() as f64 / MODULUS as f64;
    let x = -mean * (1.0 - u).ln();
    if x.is_finite() { x as u64 } else { 0 }
}

#[test]
fn test_name_equality() {
    let station: Station<FCFSPolicyManager> = Station::new("mock");
    assert_eq!(*station.name(), "mock".to_string());
    assert!(*station.name() != "Mock".to_string());
    let other: Station<FCFSPolicyManager> = Station::new("mock");
    assert_eq!(station.name(), other.name());
}

#[test]
fn test_forwarder() {
    let mut queue = EventQueue::new();
    let mut station = Station::new("mock");
    assert_eq!(station.set_handler(FCFSPolicyManager::new()), Ok(()));
    let event = Event::gen_arrival(10, 3, 5, 1).expect("times fit");
    assert!(matches!(station.handle(&event, &mut queue), Ok(None)));
    println!("{:?}", station.get_data());
    let data = station.get_data();
    assert_eq!(data.arrivals, 1);
    assert_eq!(data.sysClients, 1);
    assert_eq!(data.clock, 13);
    assert_eq!(data.lastArrival, 11);
    assert_eq!(queue.next_event().map(|e| (e.kind, e.occurTime)), Some((EventType::DEPARTURE, 18)));
}

#[test]
#[allow(non_snake_case)]
fn FCFSRuler_test_station_arrival() {
    let mut generator = RandomGenerator::new();
    let mut engine = Engine::new();
    let mut station = Station::new("Mock");
    let handler = FCFSPolicyManager::new();
    assert_eq!(station.set_handler(handler), Ok(()));
    assert_eq!(engine.register_station(station), Ok(()));
    for _ in 0..100 {
        let clock = engine.stations()[0].get_data().clock + exponential(&mut generator, 10.0);
        let mut event = Event::gen_arrival(
            clock,
            exponential(&mut generator, 3.0),
            exponential(&mut generator, 5.0),
            exponential(&mut generator, 1.0),
        )
        .expect("times fit");
        event.destination = engine.stations()[0].name().clone();
        engine.enqueue(event);
        while engine.has_events() {
            assert!(matches!(engine.tick(), Ok(None)));
        }
    }
    println!("{:?}", engine.stations()[0].get_data());
    let data = engine.stations()[0].get_data();
    assert_eq!(data.arrivals, 100);
    assert_eq!(data.completions, 100);
    assert_eq!(data.sysClients, 0);
    assert_eq!(data.maxClients, 1);
}

#[test]
fn set_handler_is_accepted_once() {
    let mut station = Station::new("S");
    assert!(station.handler().is_none());
    assert_eq!(station.set_handler(FCFSPolicyManager::new()), Ok(()));
    assert_eq!(
        station.set_handler(FCFSPolicyManager::new()),
        Err(SimError::HandlerAlreadySet)
    );
    assert!(station.handler().is_some());
}

#[test]
fn a_station_without_policy_refuses() {
    let mut queue = EventQueue::new();
    let mut station: Station<FCFSPolicyManager> = Station::new("S");
    let event = Event::new(EventType::ARRIVAL, 4, 4, 1, 4, "S".to_string());
    assert!(matches!(station.handle(&event, &mut queue), Err(SimError::HandlerMissing)));
    assert_eq!(station.get_data().clock, 0);
    assert!(!queue.has_events());
}

#[test]
fn a_station_refuses_an_event_older_than_its_clock() {
    let mut queue = EventQueue::new();
    let mut station = Station::new("S");
    assert_eq!(station.set_handler(FCFSPolicyManager::new()), Ok(()));
    let late = Event::new(EventType::ARRIVAL, 9, 9, 1, 9, "S".to_string());
    let early = Event::new(EventType::ARRIVAL, 4, 4, 1, 4, "S".to_string());
    assert!(matches!(station.handle(&late, &mut queue), Ok(None)));
    assert!(matches!(station.handle(&early, &mut queue), Err(SimError::ClockRegression)));
    assert_eq!(station.get_data().arrivals, 1);
    assert_eq!(station.get_data().clock, 9);
    assert_eq!(queue.len(), 1);
}

#[test]
fn update_integrates_over_the_interval() {
    let mut data = StationData::new();
    assert_eq!(data.update(4), Ok(()));
    assert_eq!((data.busyTime, data.areaN, data.areaS, data.clock, data.oldclock), (0, 0, 0, 4, 4));
    assert_eq!(data.client_arrived(4), Ok(()));
    assert_eq!(data.client_arrived(4), Ok(()));
    assert_eq!(data.client_arrived(4), Ok(()));
    assert_eq!(data.update(10), Ok(()));
    assert_eq!(data.busyTime, 6);
    assert_eq!(data.areaN, 18);
    assert_eq!(data.areaS, 12);
    assert_eq!(data.clock, 10);
    assert_eq!(data.oldclock, 10);
    assert_eq!(data.update(10), Ok(()));
    assert_eq!((data.busyTime, data.areaN, data.areaS), (6, 18, 12));
}

#[test]
fn update_refuses_a_time_before_the_clock() {
    let mut data = StationData::new();
    assert_eq!(data.update(7), Ok(()));
    assert_eq!(data.update(6), Err(SimError::ClockRegression));
    assert_eq!(data.clock, 7);
    assert_eq!(data.oldclock, 7);
}

#[test]
fn update_refuses_an_integral_out_of_range() {
    let mut data = StationData::new();
    assert_eq!(data.client_arrived(0), Ok(()));
    assert_eq!(data.client_arrived(0), Ok(()));
    assert_eq!(data.update(u64::MAX), Err(SimError::Overflow));
    assert_eq!(data.clock, 0);
    assert_eq!(data.areaN, 0);
    assert_eq!(data.busyTime, 0);
    let mut single = StationData::new();
    assert_eq!(single.client_arrived(0), Ok(()));
    assert_eq!(single.update(u64::MAX), Ok(()));
    assert_eq!(single.busyTime, u64::MAX);
    assert_eq!(single.areaS, 0);
}

#[test]
fn counters_follow_arrivals_and_departures() {
    let mut data = StationData::new();
    assert_eq!(data.client_arrived(3), Ok(()));
    assert_eq!(data.client_arrived(5), Ok(()));
    assert_eq!((data.arrivals, data.sysClients, data.maxClients, data.lastArrival), (2, 2, 2, 5));
    assert_eq!(data.client_departure(), Ok(()));
    assert_eq!((data.completions, data.sysClients, data.maxClients), (1, 1, 2));
    assert_eq!(data.client_arrived(6), Ok(()));
    assert_eq!((data.arrivals, data.sysClients, data.maxClients), (3, 2, 2));
    assert_eq!(data.client_departure(), Ok(()));
    assert_eq!(data.client_departure(), Ok(()));
    assert_eq!(data.client_departure(), Err(SimError::NegativeClients));
    assert_eq!((data.arrivals, data.completions, data.sysClients), (3, 3, 0));
}

#[test]
fn counters_refuse_to_leave_their_range() {
    let mut data = StationData::new();
    data.arrivals = i32::MAX;
    assert_eq!(data.client_arrived(1), Err(SimError::Overflow));
    assert_eq!(data.sysClients, 0);
    let mut full = StationData::new();
    full.sysClients = 1;
    full.completions = i32::MAX;
    assert_eq!(full.client_departure(), Err(SimError::Overflow));
    assert_eq!(full.sysClients, 1);
}

#[test]
fn conservation_holds_along_a_run() {
    let mut queue = EventQueue::new();
    let mut station = Station::new("S");
    assert_eq!(station.set_handler(FCFSPolicyManager::new()), Ok(()));
    let mut clock = 0u64;
    for k in 0..40u64 {
        clock += k % 3;
        while queue.next_event().map(|e| e.occurTime <= clock).unwrap_or(false) {
            let due = queue.take_next().expect("an event is due");
            assert!(matches!(station.handle(&due, &mut queue), Ok(None)));
            let data = station.get_data();
            assert!(data.completions <= data.arrivals);
            assert_eq!(data.sysClients, data.arrivals - data.completions);
        }
        let event = Event::new(EventType::ARRIVAL, clock, clock, 1 + k % 4, clock, "S".to_string());
        assert!(matches!(station.handle(&event, &mut queue), Ok(None)));
        let data = station.get_data();
        assert!(data.completions <= data.arrivals);
        assert_eq!(data.sysClients, data.arrivals - data.completions);
        let policy = station.handler().expect("policy installed");
        let in_service = if policy.is_busy() { 1 } else { 0 };
        assert_eq!(data.sysClients as usize, policy.waiting() + in_service);
    }
    while let Some(due) = queue.take_next() {
        assert!(matches!(station.handle(&due, &mut queue), Ok(None)));
    }
    assert_eq!(station.get_data().arrivals, 40);
    assert_eq!(station.get_data().completions, 40);
    assert_eq!(station.get_data().sysClients, 0);
}

#[test]
fn a_mismatched_departure_changes_nothing() {
    let mut queue = EventQueue::new();
    let mut data = StationData::new();
    let mut policy = FCFSPolicyManager::new();
    let first = Event::new(EventType::ARRIVAL, 0, 0, 5, 0, "S".to_string());
    assert_eq!(policy.ProcessArrival(&first, &mut data, &mut queue), Ok(()));
    assert_eq!(data.sysClients, 1);
    let scheduled = queue.next_event().expect("departure scheduled").clone();

    let mut other = scheduled.clone();
    other.serviceTime = 6;
    assert_eq!(
        policy.ProcessDeparture(&other, &mut data, &mut queue),
        Err(SimError::DepartureMismatch)
    );
    assert_eq!(data.sysClients, 1);
    assert_eq!(data.completions, 0);
    assert!(policy.is_busy());
    assert_eq!(queue.len(), 1);

    let mut elsewhere = scheduled.clone();
    elsewhere.destination = "T".to_string();
    assert_eq!(
        policy.ProcessDeparture(&elsewhere, &mut data, &mut queue),
        Err(SimError::DepartureMismatch)
    );
    assert_eq!(data.sysClients, 1);

    assert_eq!(policy.ProcessDeparture(&scheduled, &mut data, &mut queue), Ok(()));
    assert_eq!(data.sysClients, 0);
    assert_eq!(data.completions, 1);
    assert!(!policy.is_busy());
}

#[test]
fn a_departure_from_an_idle_server_is_refused() {
    let mut queue = EventQueue::new();
    let mut data = StationData::new();
    let mut policy = FCFSPolicyManager::new();
    let departure = Event::new(EventType::DEPARTURE, 0, 1, 0, 0, "S".to_string());
    assert_eq!(
        policy.ProcessDeparture(&departure, &mut data, &mut queue),
        Err(SimError::DepartureMismatch)
    );
    assert_eq!(data.sysClients, 0);
}

#[test]
fn an_arrival_tagged_as_counted_is_not_counted_again() {
    let mut queue = EventQueue::new();
    let mut data = StationData::new();
    let mut policy = FCFSPolicyManager::new();
    let mut tagged = Event::new(EventType::ARRIVAL, 0, 0, 2, 0, "S".to_string());
    tagged.subType = EventType::INPROCESS;
    assert_eq!(policy.ProcessArrival(&tagged, &mut data, &mut queue), Ok(()));
    assert_eq!(data.arrivals, 0);
    assert_eq!(data.sysClients, 0);
    assert!(policy.is_busy());
    assert_eq!(queue.next_event().map(|e| (e.kind, e.occurTime)), Some((EventType::DEPARTURE, 2)));
}

#[test]
fn a_departure_with_clients_left_and_nobody_waiting_is_refused() {
    let mut queue = EventQueue::new();
    let mut data = StationData::new();
    let mut policy = FCFSPolicyManager::new();
    let first = Event::new(EventType::ARRIVAL, 0, 0, 5, 0, "S".to_string());
    assert_eq!(policy.ProcessArrival(&first, &mut data, &mut queue), Ok(()));
    assert_eq!(data.client_arrived(0), Ok(()));
    let scheduled = queue.next_event().expect("departure scheduled").clone();
    assert_eq!(
        policy.ProcessDeparture(&scheduled, &mut data, &mut queue),
        Err(SimError::WaitingLineEmpty)
    );
    assert_eq!(data.sysClients, 2);
    assert_eq!(data.completions, 0);
    assert!(policy.is_busy());
}

#[test]
fn a_departure_from_an_empty_station_is_refused() {
    let mut queue = EventQueue::new();
    let mut data = StationData::new();
    let mut policy = FCFSPolicyManager::new();
    let first = Event::new(EventType::ARRIVAL, 0, 0, 5, 0, "S".to_string());
    assert_eq!(policy.ProcessArrival(&first, &mut data, &mut queue), Ok(()));
    let scheduled = queue.next_event().expect("departure scheduled").clone();
    let mut empty = StationData::new();
    assert_eq!(
        policy.ProcessDeparture(&scheduled, &mut empty, &mut queue),
        Err(SimError::NegativeClients)
    );
    assert_eq!(empty.sysClients, 0);
    assert!(policy.is_busy());
}

#[test]
fn a_departure_beyond_the_clock_range_is_refused() {
    let mut queue = EventQueue::new();
    let mut data = StationData::new();
    data.clock = u64::MAX - 1;
    data.oldclock = u64::MAX - 1;
    let mut policy = FCFSPolicyManager::new();
    let arrival = Event::new(EventType::ARRIVAL, 0, u64::MAX - 1, 2, 0, "S".to_string());
    assert_eq!(
        policy.process_event(&arrival, &mut data, &mut queue),
        Err(SimError::Overflow)
    );
    assert_eq!(data.arrivals, 0);
    assert!(!policy.is_busy());
    assert!(!queue.has_events());
    let fits = Event::new(EventType::ARRIVAL, 0, u64::MAX - 1, 1, 0, "S".to_string());
    assert_eq!(policy.process_event(&fits, &mut data, &mut queue), Ok(Reaction::Nothing));
    assert_eq!(queue.next_event().map(|e| e.occurTime), Some(u64::MAX));
}

#[test]
fn the_policy_answers_a_probe_with_a_snapshot_request() {
    let mut queue = EventQueue::new();
    let mut data = StationData::new();
    let mut policy = FCFSPolicyManager::new();
    let probe = Event::new(EventType::PROBE, 0, 1, 0, 0, "S".to_string());
    assert_eq!(policy.process_event(&probe, &mut data, &mut queue), Ok(Reaction::Snapshot));
    let end = Event::new(EventType::END, 0, 1, 0, 0, "S".to_string());
    assert_eq!(policy.process_event(&end, &mut data, &mut queue), Ok(Reaction::Nothing));
    assert_eq!(data.arrivals, 0);
    assert!(!queue.has_events());
}

#[test]
fn derived_metrics_of_the_trace() {
    let mut data = StationData::new();
    data.arrivals = 2;
    data.completions = 2;
    data.maxClients = 2;
    data.busyTime = 8;
    data.observationPeriod = 8;
    data.areaN = 11;
    data.areaS = 3;
    data.lastArrival = 2;
    data.clock = 8;
    data.oldclock = 8;
    let snapshot = StationStatistic::from_data(&"S".to_string(), &data);
    assert_eq!((snapshot.utilization.num, snapshot.utilization.den), (8, 8));
    assert_eq!((snapshot.throughput.num, snapshot.throughput.den), (2, 8));
    let utilization = snapshot.utilization.num as f64 / snapshot.utilization.den as f64;
    let throughput = snapshot.throughput.num as f64 / snapshot.throughput.den as f64;
    assert_eq!(utilization, 1.0);
    assert_eq!(throughput, 0.25);
    assert_eq!(snapshot.name, "S");
    assert_eq!(snapshot.actualClock, 8);
    assert_eq!((snapshot.avgInterArrival.num, snapshot.avgInterArrival.den), (8, 2));
    assert_eq!((snapshot.avgServiceTime.num, snapshot.avgServiceTime.den), (8, 2));
    assert_eq!((snapshot.avgDelay.num, snapshot.avgDelay.den), (3, 2));
    assert_eq!((snapshot.avgWaiting.num, snapshot.avgWaiting.den), (11, 2));
    assert_eq!((snapshot.inputRate.num, snapshot.inputRate.den), (2, 8));
    assert_eq!((snapshot.arrivalRate.num, snapshot.arrivalRate.den), (2, 8));
    assert_eq!((snapshot.serviceRate.num, snapshot.serviceRate.den), (2, 8));
    assert_eq!((snapshot.traffic.num, snapshot.traffic.den), (8, 2));
    assert_eq!((snapshot.meanCustomInQueue.num, snapshot.meanCustomInQueue.den), (3, 8));
    assert_eq!((snapshot.meanCustomerInService.num, snapshot.meanCustomerInService.den), (8, 8));
    assert_eq!((snapshot.meanCustomerInSystem.num, snapshot.meanCustomerInSystem.den), (11, 8));
    let copy = snapshot.clone();
    assert_eq!(copy.name, snapshot.name);
    assert_eq!(copy.utilization, snapshot.utilization);
}

#[test]
fn test_engine_arrival() {
    let mut processor = CoreStationProcessor::new();
    let event = Event::new(EventType::ARRIVAL, 0, 4, 2, 3, "S".to_string());
    assert_eq!(processor.Process(event), Ok(()));
    let header = processor.GetHeader();
    assert_eq!(header.arrivals, 1);
    assert_eq!(header.sysClients, 1);
    assert_eq!(header.maxClients, 1);
    assert_eq!(header.lastArrival, 3);
    assert_eq!(header.clock, 4);
    assert_eq!(header.busyTime, 0);
}

#[test]
fn test_engine_departure() {
    let mut processor = CoreStationProcessor::new();
    assert_eq!(processor.Process(Event::new(EventType::ARRIVAL, 0, 4, 2, 3, "S".to_string())), Ok(()));
    assert_eq!(processor.Process(Event::new(EventType::DEPARTURE, 4, 6, 2, 4, "S".to_string())), Ok(()));
    let header = processor.GetHeader();
    assert_eq!(header.completions, 1);
    assert_eq!(header.sysClients, 0);
    assert_eq!(header.busyTime, 2);
    assert_eq!(header.areaN, 2);
    assert_eq!(header.areaS, 0);
    assert_eq!(header.clock, 6);
    assert_eq!(
        processor.Process(Event::new(EventType::DEPARTURE, 6, 7, 0, 6, "S".to_string())),
        Err(SimError::NegativeClients)
    );
    assert_eq!(processor.GetHeader().clock, 6);
    assert_eq!(processor.Process(Event::new(EventType::PROBE, 6, 9, 0, 6, "S".to_string())), Ok(()));
    assert_eq!(processor.GetHeader().clock, 9);
    assert_eq!(processor.GetHeader().completions, 1);
}

#[test]
fn a_fresh_header_holds_the_name_and_zeroes() {
    let header = StationHeader::new("S".to_string());
    assert_eq!(header.name, "S");
    assert_eq!(header.arrivals + header.completions + header.sysClients + header.maxClients, 0);
    assert_eq!(header.busyTime + header.observationPeriod + header.lastArrival, 0);
    assert_eq!(header.areaN + header.areaS + header.oldclock + header.clock, 0);
}

#[test]
#[allow(non_snake_case)]
fn FCFSStation_test_station_arrival() {
    let mut queue = EventQueue::new();
    let mut station = FCFSStation::new("S".to_string());
    assert_eq!(station.Name(), "S");
    let first = Event::new(EventType::ARRIVAL, 0, 0, 5, 0, "S".to_string());
    assert_eq!(station.ProcessArrival(first, &mut queue), Ok(()));
    assert_eq!(station.GetHeader().sysClients, 1);
    assert_eq!(queue.next_event().map(|e| (e.kind, e.occurTime)), Some((EventType::DEPARTURE, 5)));
    let second = Event::new(EventType::ARRIVAL, 2, 2, 3, 2, "S".to_string());
    assert!(matches!(station.Process(second, &mut queue), Ok(None)));
    assert_eq!(station.GetHeader().sysClients, 2);
    assert_eq!(queue.len(), 1);
    let probe = Event::new(EventType::PROBE, 4, 4, 0, 4, "S".to_string());
    let snapshot = station.Process(probe, &mut queue).expect("a probe is accepted").expect("a snapshot");
    assert_eq!(snapshot.name, "S");
    assert_eq!(snapshot.actualClock, 4);
    assert_eq!(snapshot.meanCustomerInSystem.num, 6);
    let end = Event::new(EventType::END, 9, 9, 0, 9, "S".to_string());
    assert!(matches!(station.Process(end, &mut queue), Ok(None)));
    assert_eq!(station.GetHeader().clock, 4);
    let d1 = queue.take_next().expect("first departure");
    let mut wrong = d1.clone();
    wrong.occurTime = 6;
    assert_eq!(station.ProcessDeparture(wrong, &mut queue), Err(SimError::DepartureMismatch));
    assert_eq!(station.GetHeader().sysClients, 2);
    assert_eq!(station.GetHeader().clock, 4);
    assert_eq!(station.ProcessDeparture(d1, &mut queue), Ok(()));
    assert_eq!(station.GetHeader().sysClients, 1);
    assert_eq!(station.GetHeader().completions, 1);
    assert_eq!(queue.next_event().map(|e| e.occurTime), Some(8));
    let d2 = queue.take_next().expect("second departure");
    assert!(matches!(station.Process(d2, &mut queue), Ok(None)));
    assert_eq!(station.GetHeader().sysClients, 0);
    assert_eq!(station.GetHeader().busyTime, 8);
    assert!(!queue.has_events());
}

#[test]
fn an_arrival_is_counted_when_the_highest_occupancy_cannot_rise() {
    let mut data = StationData::new();
    data.maxClients = i32::MAX;
    data.sysClients = 3;
    data.arrivals = 5;
    data.completions = 2;
    assert_eq!(data.client_arrived(9), Ok(()));
    assert_eq!(data.sysClients, 4);
    assert_eq!(data.arrivals, 6);
    assert_eq!(data.maxClients, i32::MAX);
    assert_eq!(data.lastArrival, 9);
    assert_eq!(data.completions, 2);

    let mut brim = StationData::new();
    brim.maxClients = i32::MAX;
    brim.sysClients = i32::MAX - 1;
    brim.arrivals = i32::MAX - 1;
    assert_eq!(brim.client_arrived(1), Ok(()));
    assert_eq!((brim.sysClients, brim.arrivals, brim.maxClients), (i32::MAX, i32::MAX, i32::MAX));
    assert_eq!(brim.client_arrived(2), Err(SimError::Overflow));
    assert_eq!((brim.sysClients, brim.arrivals, brim.lastArrival), (i32::MAX, i32::MAX, 1));

    let mut crowded = StationData::new();
    crowded.sysClients = i32::MAX;
    crowded.maxClients = i32::MAX;
    assert_eq!(crowded.client_arrived(1), Err(SimError::Overflow));
    assert_eq!(crowded.arrivals, 0);
}

#[test]
fn the_policy_counts_an_arrival_when_the_highest_occupancy_cannot_rise() {
    let mut queue = EventQueue::new();
    let mut data = StationData::new();
    data.maxClients = i32::MAX;
    let mut policy = FCFSPolicyManager::new();
    let first = Event::new(EventType::ARRIVAL, 0, 0, 5, 0, "S".to_string());
    assert_eq!(policy.ProcessArrival(&first, &mut data, &mut queue), Ok(()));
    assert_eq!((data.sysClients, data.arrivals, data.maxClients), (1, 1, i32::MAX));
    assert!(policy.is_busy());
    assert_eq!(policy.waiting(), 0);
    assert_eq!(queue.next_event().map(|e| (e.kind, e.occurTime)), Some((EventType::DEPARTURE, 5)));
    let second = Event::new(EventType::ARRIVAL, 0, 0, 3, 0, "S".to_string());
    assert_eq!(policy.ProcessArrival(&second, &mut data, &mut queue), Ok(()));
    assert_eq!((data.sysClients, data.arrivals, data.maxClients), (2, 2, i32::MAX));
    assert!(policy.is_busy());
    assert_eq!(policy.waiting(), 1);
    assert_eq!(queue.len(), 1);
}
