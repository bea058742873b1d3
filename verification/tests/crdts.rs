use syncyam::counter_crdt::CounterCrdt;
use syncyam::crdt::Crdt;
use syncyam::DataType;

#[test]
fn can_new_and_increase_counter() {
    let mut counter = CounterCrdt::default();
    counter.increase_by(1);
    counter.increase_by(-2);
    assert_eq!(counter.value(), -1);
}

#[test]
fn can_serialize_and_deserialize_counter_crdt() {
    let mut counter = CounterCrdt::default();
    counter.increase_by(123);

    let serialized = counter.to_bytes();
    println!("serialized counter: {:?}", serialized);
    assert_eq!(serialized, 123_i64.to_le_bytes());

    let deserialized: CounterCrdt = CounterCrdt::from_bytes(&serialized);
    assert_eq!(deserialized.value(), counter.value());
}

#[test]
fn can_serialize_and_deserialize() {
    let mut counter = CounterCrdt::default();
    counter.increase_by(100);
    let crdt1 = Crdt::Counter(counter);

    let mut crdt2 = Crdt::new(DataType::Counter);
    let serialized = crdt1.serialize();
    crdt2.deserialize(&serialized);

    let Crdt::Counter(c) = &crdt2;
    assert_eq!(c.value(), 100);
    crdt2.deserialize("{}".as_bytes());

    let Crdt::Counter(c) = &crdt2;
    assert_eq!(c.value(), 0);
}

#[test]
fn round_trips_extreme_values() {
    for v in [i64::MIN, -1, 0, 1, i64::MAX] {
        let c = CounterCrdt::from_bytes(&v.to_le_bytes());
        assert_eq!(c.value(), v);
        assert_eq!(c.to_bytes(), v.to_le_bytes());
    }
}

#[test]
fn deserialize_of_wrong_length_resets_to_zero() {
    let mut counter = CounterCrdt::default();
    counter.increase_by(77);
    let mut crdt = Crdt::Counter(counter);
    crdt.deserialize(&[1, 2, 3]);
    let Crdt::Counter(c) = &crdt;
    assert_eq!(c.value(), 0);

    let mut counter = CounterCrdt::default();
    counter.increase_by(77);
    let mut crdt = Crdt::Counter(counter);
    crdt.deserialize(&[0; 9]);
    let Crdt::Counter(c) = &crdt;
    assert_eq!(c.value(), 0);
}
