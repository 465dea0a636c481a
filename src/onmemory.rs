use std::collections::HashMap;
use vstd::prelude::*;

use crate::aggregate::Aggregate;
use crate::id::Id;
use crate::projector::Projector;
use crate::store::{EventStorage, EventStorageError};
use crate::version::{VersionedAggregate, VersionedEvent};

verus! {

broadcast use vstd::std_specs::hash::group_hash_axioms;

/// A backend that holds every stream in memory for the life of the value.
#[verifier::reject_recursive_types(A)]
pub struct OnMemoryEventStorage<A: Aggregate> {
    events: HashMap<u128, Vec<VersionedEvent<A>>>,
    projectors: Vec<Attached<A>>,
    log: Ghost<Seq<(Id<A>, VersionedEvent<A>)>>,
}

/// A projector attached to a backend.
#[verifier::reject_recursive_types(A)]
struct Attached<A: Aggregate> {
    projector: Box<dyn Projector<A>>,
}

/// The error type of the in-memory backend; no operation of it fails.
#[derive(Debug, PartialEq, Eq)]
pub enum OnMemoryEventStorageError {
    Unexpected,
}

impl EventStorageError for OnMemoryEventStorageError {

}

/// An exact copy of `events`.
fn copy_events<A: Aggregate>(events: &Vec<VersionedEvent<A>>) -> (r: Vec<VersionedEvent<A>>)
    ensures
        r@ == events@,
{
    let mut out: Vec<VersionedEvent<A>> = Vec::new();
    let mut i: usize = 0;
    while i < events.len()
        invariant
            i <= events.len(),
            out@ == events@.subrange(0, i as int),
        decreases events.len() - i,
    {
        out.push(events[i].duplicate());
        proof {
            assert(out@ == events@.subrange(0, i + 1));
        }
        i = i + 1;
    }
    proof {
        assert(events@.subrange(0, events@.len() as int) == events@);
    }
    out
}

impl<A: Aggregate> OnMemoryEventStorage<A> {
    /// The events held for the UUID value `key`.
    pub closed spec fn held(&self, key: u128) -> Seq<VersionedEvent<A>> {
        if self.events@.contains_key(key) {
            self.events@[key]@
        } else {
            Seq::empty()
        }
    }

    /// The number of projectors attached.
    pub closed spec fn projector_count(&self) -> nat {
        self.projectors@.len()
    }

    /// How many events the projector attached `k`-th has been told of.
    pub closed spec fn notified_of(&self, k: int) -> nat {
        self.projectors@[k].projector.notified()
    }

    /// A backend that holds no events and has no projector.
    pub fn new() -> (r: Self)
        ensures
            forall|id: Id<A>| #[trigger] r.stream(id) == Seq::<VersionedEvent<A>>::empty(),
            r.projector_count() == 0,
            r.projected() == Seq::<(Id<A>, VersionedEvent<A>)>::empty(),
    {
        OnMemoryEventStorage { events: HashMap::new(), projectors: Vec::new(), log: Ghost(Seq::empty()) }
    }

    /// Attaches `projector`; projectors are told of events in the order they
    /// were attached.
    pub fn add_projector<P: Projector<A> + 'static>(&mut self, projector: P)
        ensures
            forall|id: Id<A>| #[trigger] final(self).stream(id) == old(self).stream(id),
            final(self).projector_count() == old(self).projector_count() + 1,
            final(self).projected() == old(self).projected(),
            forall|k: int|
                0 <= k < old(self).projector_count() ==> #[trigger] final(self).notified_of(k)
                    == old(self).notified_of(k),
    {
        let b: Box<dyn Projector<A>> = Box::new(projector);
        let attached = Attached { projector: b };
        let ghost before = self.projectors@;
        self.projectors.push(attached);
        proof {
            vstd::seq::axiom_seq_push_len(before, attached);
            assert forall|k: int| 0 <= k < before.len() implies #[trigger] self.projectors@[k]
                == before[k] by {
                vstd::seq::axiom_seq_push_index_different(before, attached, k);
            }
        }
    }
}

impl<A: Aggregate> EventStorage<A> for OnMemoryEventStorage<A> {
    type Error = OnMemoryEventStorageError;

    open spec fn stream(&self, id: Id<A>) -> Seq<VersionedEvent<A>> {
        self.held(id.spec_uuid())
    }

    open spec fn infallible() -> bool {
        true
    }

    closed spec fn projected(&self) -> Seq<(Id<A>, VersionedEvent<A>)> {
        self.log@
    }

    fn insert(&mut self, id: Id<A>, event: VersionedEvent<A>) -> (r: Result<(), Self::Error>) {
        let key = id.as_u128();
        let mut seq = match self.events.remove(&key) {
            Some(v) => v,
            None => Vec::new(),
        };
        seq.push(event);
        self.events.insert(key, seq);
        proof {
            assert forall|other: Id<A>| other != id implies #[trigger] self.stream(other)
                == old(self).stream(other) by {
                if other.spec_uuid() == id.spec_uuid() {
                    Id::lemma_uuid_determines(other, id);
                }
            }
        }
        Ok(())
    }

    fn read(&self, id: Id<A>) -> (r: Result<Vec<VersionedEvent<A>>, Self::Error>) {
        let key = id.as_u128();
        match self.events.get(&key) {
            Some(v) => Ok(copy_events(v)),
            None => Ok(Vec::new()),
        }
    }

    /// Tells every attached projector of `event`, in the order they were
    /// attached.
    fn project(&mut self, id: Id<A>, event: &VersionedEvent<A>, snapshot: &VersionedAggregate<A>)
        ensures
            final(self).projector_count() == old(self).projector_count(),
            forall|k: int|
                0 <= k < old(self).projector_count() ==> #[trigger] final(self).notified_of(k)
                    == old(self).notified_of(k) + 1,
    {
        self.log = Ghost(self.log@.push((id, *event)));
        let n = self.projectors.len();
        let mut k: usize = 0;
        while k < n
            invariant
                n == old(self).projectors@.len(),
                self.projectors@.len() == n,
                k <= n,
                self.events == old(self).events,
                self.log@ == old(self).log@.push((id, *event)),
                forall|j: int| 0 <= j < k ==> #[trigger] self.notified_of(j) == old(self).notified_of(j) + 1,
                forall|j: int| k <= j < n ==> #[trigger] self.notified_of(j) == old(self).notified_of(j),
            decreases n - k,
        {
            let ghost before = self.projectors@;
            let ghost pre: Self = *self;
            self.projectors[k].projector.project(id, event, snapshot);
            proof {
                let after = self.projectors@;
                assert forall|j: int| 0 <= j < n && j != k implies #[trigger] after[j] == before[j] by {
                    vstd::seq::axiom_seq_update_different(before, j, k as int, after[k as int]);
                }
                assert forall|j: int| 0 <= j < k + 1 implies #[trigger] self.notified_of(j)
                    == old(self).notified_of(j) + 1 by {
                    if j < k {
                        assert(after[j] == before[j]);
                        assert(pre.notified_of(j) == old(self).notified_of(j) + 1);
                    } else {
                        assert(pre.notified_of(j) == old(self).notified_of(j));
                    }
                }
                assert forall|j: int| k + 1 <= j < n implies #[trigger] self.notified_of(j)
                    == old(self).notified_of(j) by {
                    assert(after[j] == before[j]);
                    assert(pre.notified_of(j) == old(self).notified_of(j));
                }
            }
            k = k + 1;
        }
    }
}

} // verus!
