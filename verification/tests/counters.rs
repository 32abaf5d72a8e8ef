use browser_core::use_counters::{
    CounterBits, CountedUnknownProperty, CountedUnknownPropertyUseCounters, CustomUseCounter,
    CustomUseCounters, NonCustomPropertyId, NonCustomPropertyUseCounters, UseCounters,
    BITS_PER_ENTRY,
};

#[test]
fn bucket_and_pattern_of_a_counter() {
    assert_eq!(BITS_PER_ENTRY, 64);
    assert_eq!(CounterBits::bucket_and_pattern(0), (0, 1));
    assert_eq!(CounterBits::bucket_and_pattern(63), (0, 1 << 63));
    assert_eq!(CounterBits::bucket_and_pattern(64), (1, 1));
    assert_eq!(CounterBits::bucket_and_pattern(130), (2, 4));
}

#[test]
fn storage_has_room_for_every_counter() {
    assert_eq!(CounterBits::new(0).entries.len(), 0);
    assert_eq!(CounterBits::new(1).entries.len(), 1);
    assert_eq!(CounterBits::new(64).entries.len(), 1);
    assert_eq!(CounterBits::new(65).entries.len(), 2);
    assert_eq!(CounterBits::new(600).entries, vec![0u64; 10]);
}

#[test]
fn recorded_after_record() {
    let mut counters = NonCustomPropertyUseCounters::new(200);
    for bit in 0..200u16 {
        assert!(!counters.recorded(NonCustomPropertyId(bit)));
    }
    counters.record(NonCustomPropertyId(3));
    counters.record(NonCustomPropertyId(64));
    counters.record(NonCustomPropertyId(199));
    counters.record(NonCustomPropertyId(3));
    for bit in 0..200u16 {
        assert_eq!(
            counters.recorded(NonCustomPropertyId(bit)),
            bit == 3 || bit == 64 || bit == 199
        );
    }
    assert_eq!(counters.storage.entries, vec![8, 1, 0, 1 << 7]);
}

#[test]
fn counted_unknown_properties_are_recorded() {
    let mut counters = CountedUnknownPropertyUseCounters::new(10);
    counters.record(CountedUnknownProperty(9));
    assert!(counters.recorded(CountedUnknownProperty(9)));
    assert!(!counters.recorded(CountedUnknownProperty(8)));
}

#[test]
fn custom_counters_are_recorded() {
    assert_eq!(CustomUseCounter::MaybeHasPathBaseUriDependency.bit(), 0);
    assert_eq!(CustomUseCounter::MaybeHasFullBaseUriDependency.bit(), 1);
    assert_eq!(CustomUseCounter::Last.bit(), 2);
    let mut counters = CustomUseCounters::new();
    assert!(!counters.recorded(CustomUseCounter::MaybeHasFullBaseUriDependency));
    counters.record(CustomUseCounter::MaybeHasFullBaseUriDependency);
    assert!(counters.recorded(CustomUseCounter::MaybeHasFullBaseUriDependency));
    assert!(!counters.recorded(CustomUseCounter::MaybeHasPathBaseUriDependency));
}

#[test]
fn merge_takes_the_counters_of_both() {
    let mut a = UseCounters::new(130, 20);
    let mut b = UseCounters::new(130, 20);
    a.non_custom_properties.record(NonCustomPropertyId(1));
    a.counted_unknown_properties.record(CountedUnknownProperty(5));
    b.non_custom_properties.record(NonCustomPropertyId(129));
    b.non_custom_properties.record(NonCustomPropertyId(1));
    b.custom.record(CustomUseCounter::MaybeHasPathBaseUriDependency);
    let before = b.clone();
    a.merge(&b);
    assert_eq!(b, before);
    for bit in 0..130u16 {
        assert_eq!(
            a.non_custom_properties.recorded(NonCustomPropertyId(bit)),
            bit == 1 || bit == 129
        );
    }
    for bit in 0..20u8 {
        assert_eq!(a.counted_unknown_properties.recorded(CountedUnknownProperty(bit)), bit == 5);
    }
    assert!(a.custom.recorded(CustomUseCounter::MaybeHasPathBaseUriDependency));
    assert!(!a.custom.recorded(CustomUseCounter::MaybeHasFullBaseUriDependency));
    // Merging again changes nothing.
    let merged = a.clone();
    a.merge(&b);
    assert_eq!(a, merged);
}

#[test]
fn merge_of_storages_of_different_sizes() {
    let mut small = CounterBits::new(64);
    let mut large = CounterBits::new(128);
    large.record(5);
    large.record(100);
    small.record(6);
    small.merge(&large);
    assert_eq!(small.entries, vec![(1 << 5) | (1 << 6)]);
    large.merge(&small);
    assert_eq!(large.entries, vec![(1 << 5) | (1 << 6), 1 << 36]);
}
