use vstd::prelude::*;

use crate::aggregate::{Aggregate, Event};

verus! {

/// The position of an event in its stream. Zero means that no event has
/// been applied yet; the first event of a stream carries version one.
#[derive(Debug, Copy, Clone, PartialEq, Eq, Structural, PartialOrd, Ord, Default)]
pub struct Version(pub u64);

impl From<Version> for u64 {
    fn from(v: Version) -> (r: u64) {
        v.0
    }
}

impl vstd::std_specs::convert::FromSpecImpl<Version> for u64 {
    open spec fn obeys_from_spec() -> bool {
        true
    }

    open spec fn from_spec(v: Version) -> u64 {
        v.0
    }
}

impl Version {
    /// Whether `self` directly follows `other`.
    pub fn is_next_of(&self, other: &Version) -> (r: bool)
        ensures
            r == (self.0 as int == other.0 as int + 1),
    {
        other.0 < u64::MAX && self.0 == other.0 + 1
    }

    /// The version that directly follows `self`.
    pub fn next(&self) -> (r: Version)
        requires
            self.0 < u64::MAX,
        ensures
            r.0 == self.0 + 1,
            r.is_next_of_spec(*self),
    {
        Version(self.0 + 1)
    }

    pub open spec fn is_next_of_spec(self, other: Version) -> bool {
        self.0 as int == other.0 as int + 1
    }

    /// The number that the version holds.
    pub fn value(&self) -> (r: u64)
        ensures
            r == self.0,
    {
        self.0
    }
}

} // verus!

verus! {

/// An event together with the version it holds in its stream.
#[derive(Debug)]
pub struct VersionedEvent<A: Aggregate> {
    pub version: Version,
    pub event: A::Event,
}

impl<A: Aggregate> VersionedEvent<A> {
    /// An exact copy of the versioned event.
    pub fn duplicate(&self) -> (r: Self)
        ensures
            r == *self,
    {
        VersionedEvent { version: self.version, event: self.event.duplicate() }
    }
}

/// An aggregate together with the version of the last event applied to it.
#[derive(Debug)]
pub struct VersionedAggregate<A: Aggregate> {
    pub version: Version,
    pub aggregate: A,
}

/// A version together with the view of an aggregate.
pub ghost struct VersionedState<V> {
    pub version: Version,
    pub aggregate: V,
}

impl<A: Aggregate> View for VersionedAggregate<A> {
    type V = VersionedState<A::V>;

    open spec fn view(&self) -> VersionedState<A::V> {
        VersionedState { version: self.version, aggregate: self.aggregate@ }
    }
}

impl<A: Aggregate> VersionedAggregate<A> {
    /// The state of a stream with no events: version zero and the
    /// aggregate's default state.
    pub open spec fn spec_default() -> VersionedState<A::V> {
        VersionedState { version: Version(0), aggregate: A::spec_default() }
    }
}

impl<A: Aggregate> Default for VersionedAggregate<A> {
    fn default() -> (r: Self)
        ensures
            r@ == Self::spec_default(),
    {
        VersionedAggregate { version: Version(0), aggregate: A::default() }
    }
}

} // verus!
