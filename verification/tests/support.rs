use neslib::Collections::LightweightList::LwList;
use neslib::Data::DataStore::{buffer_size, parse_u32, DataStore, DEFAULT_BUFFER_SIZE};
use neslib::Data::Statistics::StationStatistic;
use neslib::Errors::SimError;
use neslib::Events::{Event, EventType};
use neslib::Random::rngs::{
    next_in_stream, next_stream_seed, seed_of, RandomGenerator, A256, CHECK, DEFAULT, MODULUS,
};
use neslib::Stations::StationData::StationData;

fn snapshot(name: &str, clock: u64) -> StationStatistic {
    let mut data = StationData::new();
    data.clock = clock;
    data.oldclock = clock;
    StationStatistic::from_data(&name.to_string(), &data)
}

#[test]
fn test_push() {
    let mut list: LwList<i32> = LwList::new();
    let value = 1;
    list.push(value);
    let v = list.front();
    assert_eq!(*v.unwrap(), value);
}

#[test]
fn test_pop() {
    let mut list: LwList<i32> = LwList::new();
    let v1 = 3;
    let v2 = 2;
    let v3 = 1;

    list.push(v1);
    list.push(v2);
    list.push(v3);

    assert_eq!(v1, *list.front().unwrap());
    list.pop();
    assert_eq!(v2, *list.front().unwrap());
    list.pop();
    assert_eq!(v3, *list.front().unwrap());
}

#[test]
fn an_empty_list_has_no_front_and_pops_to_nothing() {
    let mut list: LwList<u8> = LwList::new();
    assert!(list.is_empty());
    assert!(list.front().is_none());
    list.pop();
    assert!(list.take_front().is_none());
    list.push(7);
    list.push(8);
    assert_eq!(list.len(), 2);
    assert_eq!(list.take_front(), Some(7));
    assert_eq!(list.take_front(), Some(8));
    assert!(list.is_empty());
}

#[test]
fn test_store() {
    let mut store = DataStore::new(2);
    assert_eq!(store.len(), 0);
    assert!(store.add_data(snapshot("a", 1)).is_none());
    assert!(store.add_data(snapshot("b", 2)).is_none());
    assert_eq!(store.len(), 2);
    let batch = store.add_data(snapshot("c", 3)).expect("a full store hands out its records");
    assert_eq!(batch.len(), 2);
    assert_eq!(batch[0].name, "a");
    assert_eq!(batch[1].name, "b");
    assert_eq!(batch[1].actualClock, 2);
    assert_eq!(store.len(), 1);
    let rest = store.take_batch();
    assert_eq!(rest.len(), 1);
    assert_eq!(rest[0].name, "c");
    assert_eq!(store.len(), 0);
    assert!(store.take_batch().is_empty());
}

#[test]
fn parse_u32_reads_decimal_digits() {
    assert_eq!(parse_u32("0"), Some(0));
    assert_eq!(parse_u32("1000"), Some(1000));
    assert_eq!(parse_u32("007"), Some(7));
    assert_eq!(parse_u32(""), Some(0));
    assert_eq!(parse_u32("4294967295"), Some(u32::MAX));
    assert_eq!(parse_u32("4294967296"), None);
    assert_eq!(parse_u32("99999999999999999999"), None);
    assert_eq!(parse_u32("12a"), None);
    assert_eq!(parse_u32("-1"), None);
    assert_eq!(parse_u32(" 1"), None);
    assert_eq!(parse_u32("١"), None);
}

#[test]
fn buffer_size_falls_back_to_the_default() {
    assert_eq!(DEFAULT_BUFFER_SIZE, 1000);
    assert_eq!(buffer_size(None), Some(1000));
    assert_eq!(buffer_size(Some("64")), Some(64));
    assert_eq!(buffer_size(Some("sixty")), None);
}

#[test]
#[allow(non_snake_case)]
fn Test_Random() {
    let mut gen = RandomGenerator::new();
    gen.SelectStream(0);
    assert_eq!(gen.PutSeed(1), Ok(()));
    let mut u: f64 = 0.0;
    for _ in 0..10000 {
        u = gen.Random() as f64 / MODULUS as f64;
    }
    assert!(0.0 < u && u < 1.0);
    let mut x = gen.GetSeed();
    let ok = x == CHECK;
    gen.SelectStream(1);
    assert_eq!(gen.PlantSeeds(1), Ok(()));
    x = gen.GetSeed();
    assert!(ok && (x == A256));
}

#[test]
fn one_step_of_the_generator() {
    assert_eq!(next_in_stream(1), 48271);
    assert_eq!(next_in_stream(48271), 182605794);
    assert_eq!(next_in_stream(2), 96542);
    assert_eq!(next_in_stream(44489), 44872);
    assert_eq!(next_in_stream(0), MODULUS);
    assert_eq!(next_in_stream(MODULUS), MODULUS);
    assert_eq!(next_in_stream(MODULUS - 1), MODULUS - 48271);
    assert_eq!(next_stream_seed(1), 22925);
    assert_eq!(next_stream_seed(22925), 525555625);
    assert_eq!(next_stream_seed(93675), 15728);
}

#[test]
fn streams_keep_their_own_seeds() {
    let mut gen = RandomGenerator::new();
    assert_eq!(gen.GetSeed(), DEFAULT);
    gen.SelectStream(3);
    let third = gen.GetSeed();
    gen.SelectStream(2);
    let second = gen.GetSeed();
    assert_eq!(next_stream_seed(second), third);
    let drawn = gen.Random();
    assert_eq!(drawn, next_in_stream(second));
    assert_eq!(gen.GetSeed(), drawn);
    gen.SelectStream(3);
    assert_eq!(gen.GetSeed(), third);
    gen.SelectStream(0);
    assert_eq!(gen.GetSeed(), DEFAULT);
    gen.SelectStream(256 + 2);
    assert_eq!(gen.GetSeed(), drawn);
}

#[test]
fn a_seed_is_reduced_or_taken_from_the_clock() {
    assert_eq!(seed_of(5, None), Ok(5));
    assert_eq!(seed_of(i32::MAX, Some(9)), Ok(0));
    assert_eq!(seed_of(0, Some(2147483647 + 12)), Ok(12));
    assert_eq!(seed_of(-3, Some(1u128 << 100)), Ok(((1u128 << 100) % 2147483647) as i32));
    assert_eq!(seed_of(0, None), Err(SimError::ClockUnavailable));
    let mut gen = RandomGenerator::new();
    assert_eq!(gen.PutSeed(0), Ok(()));
    let seed = gen.GetSeed();
    assert!(0 <= seed && seed < MODULUS);
    gen.SelectStream(1);
    assert_eq!(gen.PlantSeeds(-1), Ok(()));
    gen.SelectStream(0);
    let first = gen.GetSeed();
    gen.SelectStream(1);
    assert_eq!(gen.GetSeed(), next_stream_seed(first));
}

#[test]
fn events_are_made_with_the_given_times() {
    let event = Event::new(EventType::ARRIVAL, 1, 2, 3, 4, "S".to_string());
    assert_eq!(event.kind, EventType::ARRIVAL);
    assert_eq!((event.createTime, event.occurTime, event.serviceTime, event.arrivalTime), (1, 2, 3, 4));
    assert_eq!(event.subType, EventType::NOEVENT);
    assert_eq!(event.destination, "S");
    assert!(event == event.clone());
    let mut other = event.clone();
    other.destination = "T".to_string();
    assert!(event != other);
    let mut tagged = event.clone();
    tagged.subType = EventType::INPROCESS;
    assert!(event != tagged);

    let arrival = Event::gen_arrival(10, 3, 5, 1).expect("times fit");
    assert_eq!(arrival.kind, EventType::ARRIVAL);
    assert_eq!((arrival.createTime, arrival.occurTime, arrival.serviceTime, arrival.arrivalTime), (10, 13, 5, 11));
    assert_eq!(arrival.subType, EventType::ARRIVAL);
    assert_eq!(arrival.destination, "None");
    assert!(matches!(Event::gen_arrival(u64::MAX, 1, 0, 0), Err(SimError::Overflow)));
    assert!(matches!(Event::gen_arrival(u64::MAX, 0, 0, 1), Err(SimError::Overflow)));

    let departure = Event::gen_departure(10, 3, 4).expect("times fit");
    assert_eq!(departure.kind, EventType::DEPARTURE);
    assert_eq!((departure.createTime, departure.occurTime, departure.serviceTime, departure.arrivalTime), (10, 13, 0, 6));
    assert_eq!(departure.subType, EventType::NOEVENT);
    assert_eq!(departure.destination, "None");
    assert!(matches!(Event::gen_departure(10, 3, 11), Err(SimError::Overflow)));
    assert!(matches!(Event::gen_departure(u64::MAX, 1, 0), Err(SimError::Overflow)));
}

#[test]
fn kinds_and_errors_have_their_words() {
    assert_eq!(EventType::ARRIVAL.label(), "Arrival");
    assert_eq!(EventType::DEPARTURE.label(), "Departure");
    assert_eq!(EventType::END.label(), "End");
    assert_eq!(EventType::PROBE.label(), "Probe");
    assert_eq!(EventType::MAINTENANCE.label(), "Maintenance");
    assert_eq!(EventType::NOEVENT.label(), "NoEvent");
    assert_eq!(EventType::INPROCESS.label(), "InProcess");
    assert_eq!(SimError::HandlerMissing.describe(), "handler not set");
    assert_eq!(SimError::HandlerAlreadySet.describe(), "cannot set handler 2 times");
    assert_eq!(SimError::DepartureMismatch.describe(), "event departure requested not in process");
    assert!(SimError::UnknownDestination.describe() != SimError::Overflow.describe());
}
