use vstd::prelude::*;

use crate::aggregate::Aggregate;
use crate::id::Id;
use crate::version::{VersionedAggregate, VersionedEvent};

verus! {

/// An observer that builds a derived read-model from recorded events. It is
/// told of each event after the event was recorded; what it does with it is
/// its own concern and never reaches the write path.
pub trait Projector<A: Aggregate> {
    /// How many events the projector has been told of. Each projector
    /// states its own; the default body says nothing of it.
    open spec fn notified(&self) -> nat {
        arbitrary()
    }

    fn project(&mut self, id: Id<A>, event: &VersionedEvent<A>, aggregate: &VersionedAggregate<A>)
        ensures
            final(self).notified() == old(self).notified() + 1,
    ;
}

} // verus!
