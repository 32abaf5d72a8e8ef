//! Use counters of a document: which CSS properties its stylesheets were
//! seen to use.
//!
//! A counter is one bit. Counters are only ever set, and the counters of
//! two parses of one document are merged by taking each bit of either.

use vstd::prelude::*;

verus! {

/// The number of counters in one entry of the storage.
pub const BITS_PER_ENTRY: usize = 64;

/// The bits of a set of counters, sixty-four to an entry.
#[derive(Clone, Debug, PartialEq, Eq)]
pub struct CounterBits {
    pub entries: Vec<u64>,
}

/// The bit pattern that selects the counter `bit_in_bucket` of an entry.
pub open spec fn pattern_of(bit_in_bucket: u64) -> u64 {
    1u64 << bit_in_bucket
}

impl CounterBits {
    /// The number of counters that the storage has room for.
    pub open spec fn capacity(&self) -> nat {
        (self.entries@.len() * BITS_PER_ENTRY) as nat
    }

    /// Whether the counter `bit` is set. A counter beyond the capacity is
    /// not.
    pub open spec fn has(&self, bit: nat) -> bool {
        &&& bit < self.capacity()
        &&& self.entries@[(bit / BITS_PER_ENTRY as nat) as int] & pattern_of(
            (bit % BITS_PER_ENTRY as nat) as u64,
        ) != 0
    }

    /// Storage for at least `count` counters, none of them set.
    pub fn new(count: usize) -> (r: CounterBits)
        ensures
            r.capacity() >= count,
            r.entries@.len() == (count + BITS_PER_ENTRY - 1) / BITS_PER_ENTRY as int,
            forall|bit: nat| !r.has(bit),
    {
        let buckets: usize = count / BITS_PER_ENTRY + (if count % BITS_PER_ENTRY == 0 {
            0
        } else {
            1
        });
        let mut entries: Vec<u64> = Vec::new();
        let mut i: usize = 0;
        while i < buckets
            invariant
                i <= buckets,
                entries@.len() == i,
                forall|j: int| 0 <= j < i ==> entries@[j] == 0,
            decreases buckets - i,
        {
            entries.push(0);
            i += 1;
        }
        let r = CounterBits { entries };
        assert forall|bit: nat| !r.has(bit) by {
            let p = pattern_of((bit % BITS_PER_ENTRY as nat) as u64);
            assert(0u64 & p == 0) by (bit_vector);
        }
        r
    }

    /// The entry that the counter `bit` belongs in, and the pattern that
    /// selects the counter there.
    pub fn bucket_and_pattern(bit: usize) -> (r: (usize, u64))
        ensures
            r.0 == bit / BITS_PER_ENTRY,
            r.1 == pattern_of((bit % BITS_PER_ENTRY) as u64),
    {
        let bucket = bit / BITS_PER_ENTRY;
        let bit_in_bucket = bit % BITS_PER_ENTRY;
        (bucket, 1u64 << (bit_in_bucket as u64))
    }

    /// Sets the counter `bit`.
    pub fn record(&mut self, bit: usize)
        requires
            bit < old(self).capacity(),
        ensures
            final(self).entries@.len() == old(self).entries@.len(),
            forall|other: nat| #[trigger] final(self).has(other) == (old(self).has(other) || other == bit),
    {
        let (bucket, pattern) = CounterBits::bucket_and_pattern(bit);
        let entry = self.entries[bucket];
        self.entries.set(bucket, entry | pattern);
        assert forall|other: nat| self.has(other) == (old(self).has(other) || other == bit) by {
            if other < self.capacity() {
                let k: u64 = (bit % BITS_PER_ENTRY) as u64;
                let j: u64 = (other % BITS_PER_ENTRY as nat) as u64;
                if other / BITS_PER_ENTRY as nat == bucket {
                    assert(k < 64 && j < 64 ==> (((entry | (1u64 << k)) & (1u64 << j) != 0) == ((
                    entry & (1u64 << j) != 0) || j == k))) by (bit_vector);
                }
            }
        }
    }

    /// Whether the counter `bit` was set earlier.
    pub fn recorded(&self, bit: usize) -> (r: bool)
        requires
            bit < self.capacity(),
        ensures
            r == self.has(bit as nat),
    {
        let (bucket, pattern) = CounterBits::bucket_and_pattern(bit);
        self.entries[bucket] & pattern != 0
    }

    /// Merges `other` into `self`: sets every counter that is set in
    /// `other` and that `self` has room for.
    pub fn merge(&mut self, other: &CounterBits)
        ensures
            final(self).entries@.len() == old(self).entries@.len(),
            forall|bit: nat|
                #[trigger] final(self).has(bit) == (old(self).has(bit) || (bit < old(
                    self,
                ).capacity() && other.has(bit))),
    {
        let count = if self.entries.len() < other.entries.len() {
            self.entries.len()
        } else {
            other.entries.len()
        };
        let mut i: usize = 0;
        while i < count
            invariant
                i <= count,
                count <= self.entries@.len(),
                count <= other.entries@.len(),
                self.entries@.len() == old(self).entries@.len(),
                forall|j: int|
                    0 <= j < i ==> self.entries@[j] == old(self).entries@[j] | other.entries@[j],
                forall|j: int| i <= j < self.entries@.len() ==> self.entries@[j] == old(
                    self,
                ).entries@[j],
            decreases count - i,
        {
            let merged = self.entries[i] | other.entries[i];
            self.entries.set(i, merged);
            i += 1;
        }
        assert forall|bit: nat|
            #[trigger] self.has(bit) == (old(self).has(bit) || (bit < old(self).capacity()
                && other.has(bit))) by {
            if bit < self.capacity() {
                let bucket = (bit / BITS_PER_ENTRY as nat) as int;
                let p = pattern_of((bit % BITS_PER_ENTRY as nat) as u64);
                let mine = old(self).entries@[bucket];
                if bucket < count {
                    let theirs = other.entries@[bucket];
                    assert(((mine | theirs) & p != 0) == (mine & p != 0 || theirs & p != 0))
                        by (bit_vector);
                }
            }
        }
    }
}

/// A CSS property that is not a custom property, by its number.
#[derive(Clone, Copy, Debug, PartialEq, Eq, Structural)]
pub struct NonCustomPropertyId(pub u16);

impl NonCustomPropertyId {
    /// The counter of the property.
    pub fn bit(self) -> (r: usize)
        ensures
            r == self.0,
    {
        self.0 as usize
    }
}

/// A property that is counted although it is not implemented, by its
/// number.
#[derive(Clone, Copy, Debug, PartialEq, Eq, Structural)]
pub struct CountedUnknownProperty(pub u8);

impl CountedUnknownProperty {
    /// The counter of the property.
    pub fn bit(self) -> (r: usize)
        ensures
            r == self.0,
    {
        self.0 as usize
    }
}

/// A custom style use counter that we may want to record.
#[derive(Clone, Copy, Debug, PartialEq, Eq, Structural)]
pub enum CustomUseCounter {
    /// Whether we are likely to be using relative URIs that depend on our
    /// path depth.
    MaybeHasPathBaseUriDependency,
    /// Whether we are likely to be using relative URIs that depend on our
    /// full URI.
    MaybeHasFullBaseUriDependency,
    /// Not a counter: the number of the counters.
    Last,
}

impl CustomUseCounter {
    /// The counter as a number.
    pub open spec fn index(self) -> nat {
        match self {
            CustomUseCounter::MaybeHasPathBaseUriDependency => 0,
            CustomUseCounter::MaybeHasFullBaseUriDependency => 1,
            CustomUseCounter::Last => 2,
        }
    }

    /// The counter as a number.
    pub fn bit(self) -> (r: usize)
        ensures
            r == self.index(),
    {
        match self {
            CustomUseCounter::MaybeHasPathBaseUriDependency => 0,
            CustomUseCounter::MaybeHasFullBaseUriDependency => 1,
            CustomUseCounter::Last => 2,
        }
    }
}

/// One bit per each non-custom CSS property.
#[derive(Clone, Debug, PartialEq, Eq)]
pub struct NonCustomPropertyUseCounters {
    pub storage: CounterBits,
}

impl NonCustomPropertyUseCounters {
    /// Counters for `count` properties, none of them recorded.
    pub fn new(count: usize) -> (r: NonCustomPropertyUseCounters)
        ensures
            r.storage.capacity() >= count,
            forall|bit: nat| !r.storage.has(bit),
    {
        NonCustomPropertyUseCounters { storage: CounterBits::new(count) }
    }

    /// Record that a given property ID has been parsed.
    pub fn record(&mut self, id: NonCustomPropertyId)
        requires
            id.0 < old(self).storage.capacity(),
        ensures
            final(self).storage.capacity() == old(self).storage.capacity(),
            forall|other: nat|
                #[trigger] final(self).storage.has(other) == (old(self).storage.has(other) || other == id.0),
    {
        self.storage.record(id.bit())
    }

    /// Returns whether a given property ID has been recorded earlier.
    pub fn recorded(&self, id: NonCustomPropertyId) -> (r: bool)
        requires
            id.0 < self.storage.capacity(),
        ensures
            r == self.storage.has(id.0 as nat),
    {
        self.storage.recorded(id.bit())
    }

    /// Merge `other` into `self`.
    pub fn merge(&mut self, other: &NonCustomPropertyUseCounters)
        ensures
            final(self).storage.capacity() == old(self).storage.capacity(),
            forall|bit: nat|
                #[trigger] final(self).storage.has(bit) == (old(self).storage.has(bit) || (bit < old(
                    self,
                ).storage.capacity() && other.storage.has(bit))),
    {
        self.storage.merge(&other.storage)
    }
}

/// One bit per each property that is counted although it is not
/// implemented.
#[derive(Clone, Debug, PartialEq, Eq)]
pub struct CountedUnknownPropertyUseCounters {
    pub storage: CounterBits,
}

impl CountedUnknownPropertyUseCounters {
    /// Counters for `count` properties, none of them recorded.
    pub fn new(count: usize) -> (r: CountedUnknownPropertyUseCounters)
        ensures
            r.storage.capacity() >= count,
            forall|bit: nat| !r.storage.has(bit),
    {
        CountedUnknownPropertyUseCounters { storage: CounterBits::new(count) }
    }

    /// Record that a given property ID has been parsed.
    pub fn record(&mut self, id: CountedUnknownProperty)
        requires
            id.0 < old(self).storage.capacity(),
        ensures
            final(self).storage.capacity() == old(self).storage.capacity(),
            forall|other: nat|
                #[trigger] final(self).storage.has(other) == (old(self).storage.has(other) || other == id.0),
    {
        self.storage.record(id.bit())
    }

    /// Returns whether a given property ID has been recorded earlier.
    pub fn recorded(&self, id: CountedUnknownProperty) -> (r: bool)
        requires
            id.0 < self.storage.capacity(),
        ensures
            r == self.storage.has(id.0 as nat),
    {
        self.storage.recorded(id.bit())
    }

    /// Merge `other` into `self`.
    pub fn merge(&mut self, other: &CountedUnknownPropertyUseCounters)
        ensures
            final(self).storage.capacity() == old(self).storage.capacity(),
            forall|bit: nat|
                #[trigger] final(self).storage.has(bit) == (old(self).storage.has(bit) || (bit < old(
                    self,
                ).storage.capacity() && other.storage.has(bit))),
    {
        self.storage.merge(&other.storage)
    }
}

/// One bit for each custom use counter.
#[derive(Clone, Debug, PartialEq, Eq)]
pub struct CustomUseCounters {
    pub storage: CounterBits,
}

impl CustomUseCounters {
    /// Counters for every custom use counter, none of them recorded.
    pub fn new() -> (r: CustomUseCounters)
        ensures
            r.storage.capacity() >= CustomUseCounter::Last.index(),
            forall|bit: nat| !r.storage.has(bit),
    {
        CustomUseCounters { storage: CounterBits::new(CustomUseCounter::Last.bit()) }
    }

    /// Record that a given counter has been seen.
    pub fn record(&mut self, id: CustomUseCounter)
        requires
            id.index() < old(self).storage.capacity(),
        ensures
            final(self).storage.capacity() == old(self).storage.capacity(),
            forall|other: nat|
                #[trigger] final(self).storage.has(other) == (old(self).storage.has(other) || other
                    == id.index()),
    {
        self.storage.record(id.bit())
    }

    /// Returns whether a given counter has been recorded earlier.
    pub fn recorded(&self, id: CustomUseCounter) -> (r: bool)
        requires
            id.index() < self.storage.capacity(),
        ensures
            r == self.storage.has(id.index()),
    {
        self.storage.recorded(id.bit())
    }

    /// Merge `other` into `self`.
    pub fn merge(&mut self, other: &CustomUseCounters)
        ensures
            final(self).storage.capacity() == old(self).storage.capacity(),
            forall|bit: nat|
                #[trigger] final(self).storage.has(bit) == (old(self).storage.has(bit) || (bit < old(
                    self,
                ).storage.capacity() && other.storage.has(bit))),
    {
        self.storage.merge(&other.storage)
    }
}

/// The use-counter data related to a given document we want to store.
#[derive(Clone, Debug, PartialEq, Eq)]
pub struct UseCounters {
    /// The counters for non-custom properties that have been parsed in the
    /// document's stylesheets.
    pub non_custom_properties: NonCustomPropertyUseCounters,
    /// The counters for css properties which we haven't implemented yet.
    pub counted_unknown_properties: CountedUnknownPropertyUseCounters,
    /// Custom counters for virtually everything else.
    pub custom: CustomUseCounters,
}

impl UseCounters {
    /// Counters for a document, none of them recorded: for `non_custom`
    /// properties and for `counted_unknown` properties that are counted
    /// although they are not implemented.
    pub fn new(non_custom: usize, counted_unknown: usize) -> (r: UseCounters)
        ensures
            r.non_custom_properties.storage.capacity() >= non_custom,
            r.counted_unknown_properties.storage.capacity() >= counted_unknown,
            r.custom.storage.capacity() >= CustomUseCounter::Last.index(),
            forall|bit: nat| !r.non_custom_properties.storage.has(bit),
            forall|bit: nat| !r.counted_unknown_properties.storage.has(bit),
            forall|bit: nat| !r.custom.storage.has(bit),
    {
        UseCounters {
            non_custom_properties: NonCustomPropertyUseCounters::new(non_custom),
            counted_unknown_properties: CountedUnknownPropertyUseCounters::new(counted_unknown),
            custom: CustomUseCounters::new(),
        }
    }

    /// Merge the use counters.
    ///
    /// Used for parallel parsing, where one document is parsed in parts:
    /// after the merge a counter is recorded in `self` if it was recorded in
    /// `self` or in `other`.
    pub fn merge(&mut self, other: &UseCounters)
        ensures
            final(self).non_custom_properties.storage.capacity() == old(
                self,
            ).non_custom_properties.storage.capacity(),
            final(self).counted_unknown_properties.storage.capacity() == old(
                self,
            ).counted_unknown_properties.storage.capacity(),
            final(self).custom.storage.capacity() == old(self).custom.storage.capacity(),
            forall|bit: nat|
                #[trigger] final(self).non_custom_properties.storage.has(bit) == (old(
                    self,
                ).non_custom_properties.storage.has(bit) || (bit < old(
                    self,
                ).non_custom_properties.storage.capacity()
                    && other.non_custom_properties.storage.has(bit))),
            forall|bit: nat|
                #[trigger] final(self).counted_unknown_properties.storage.has(bit) == (old(
                    self,
                ).counted_unknown_properties.storage.has(bit) || (bit < old(
                    self,
                ).counted_unknown_properties.storage.capacity()
                    && other.counted_unknown_properties.storage.has(bit))),
            forall|bit: nat|
                #[trigger] final(self).custom.storage.has(bit) == (old(self).custom.storage.has(bit) || (bit
                    < old(self).custom.storage.capacity() && other.custom.storage.has(bit))),
    {
        self.non_custom_properties.merge(&other.non_custom_properties);
        self.counted_unknown_properties.merge(&other.counted_unknown_properties);
        self.custom.merge(&other.custom);
    }
}

} // verus!
