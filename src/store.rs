use vstd::prelude::*;

use crate::aggregate::{Aggregate, Command, Event};
use crate::id::Id;
use crate::version::{Version, VersionedAggregate, VersionedEvent, VersionedState};

verus! {

/// A marker for the errors that a storage backend reports.
pub trait EventStorageError {}

/// Why a stream could not be replayed.
#[derive(Debug, PartialEq, Eq)]
pub enum ReplayAggregateError<E> {
    /// The backend failed to read the stream.
    Read(E),
    /// A stored version does not directly follow the one before it (a gap,
    /// a duplicate or a reordering).
    VersionInconsistent,
}

/// Why a command could not be executed and recorded.
#[derive(Debug, PartialEq, Eq)]
pub enum ExecuteCommandError<E, C> {
    /// The stream could not be replayed; nothing was recorded.
    ReplayAggregate(ReplayAggregateError<E>),
    /// The command rejected the current state; nothing was recorded.
    Command(C),
    /// The backend failed to record an event; the events recorded before
    /// it stay recorded.
    Insert(E),
    /// Numbering the command's events would pass the largest version;
    /// nothing was recorded.
    VersionOverflow,
}

impl<E> From<E> for ReplayAggregateError<E> {
    fn from(e: E) -> (r: Self) {
        ReplayAggregateError::Read(e)
    }
}

impl<E> vstd::std_specs::convert::FromSpecImpl<E> for ReplayAggregateError<E> {
    open spec fn obeys_from_spec() -> bool {
        true
    }

    open spec fn from_spec(e: E) -> Self {
        ReplayAggregateError::Read(e)
    }
}

impl<E, C> From<ReplayAggregateError<E>> for ExecuteCommandError<E, C> {
    fn from(e: ReplayAggregateError<E>) -> (r: Self) {
        ExecuteCommandError::ReplayAggregate(e)
    }
}

impl<E, C> vstd::std_specs::convert::FromSpecImpl<ReplayAggregateError<E>> for ExecuteCommandError<E, C> {
    open spec fn obeys_from_spec() -> bool {
        true
    }

    open spec fn from_spec(e: ReplayAggregateError<E>) -> Self {
        ExecuteCommandError::ReplayAggregate(e)
    }
}

/// The error type of the commands of aggregate `A`.
pub type CommandErrorOf<A> = <<A as Aggregate>::Command as Command<
    A,
    <A as Aggregate>::Event,
>>::Error;

/// Whether the versions of `events` are exactly 1, 2, ..., n in order.
pub open spec fn versions_sequential<A: Aggregate>(events: Seq<VersionedEvent<A>>) -> bool {
    forall|i: int| 0 <= i < events.len() ==> (#[trigger] events[i]).version.0 == i + 1
}

/// The events that `events` carry, in order.
pub open spec fn payloads<A: Aggregate>(events: Seq<VersionedEvent<A>>) -> Seq<A::Event> {
    events.map_values(|e: VersionedEvent<A>| e.event)
}

/// The state obtained by applying `events` to `aggregate`, left to right.
pub open spec fn apply_events<A: Aggregate>(aggregate: A::V, events: Seq<A::Event>) -> A::V
    decreases events.len(),
{
    if events.len() == 0 {
        aggregate
    } else {
        events.last().spec_apply(apply_events::<A>(aggregate, events.drop_last()))
    }
}

/// What replaying a stream yields: its length as version and the fold of its
/// events over the default state, if its versions are 1, 2, ..., n; else
/// nothing.
pub open spec fn replayed<A: Aggregate>(events: Seq<VersionedEvent<A>>) -> Option<
    VersionedState<A::V>,
> {
    if versions_sequential(events) {
        Some(
            VersionedState {
                version: Version(events.len() as u64),
                aggregate: apply_events::<A>(A::spec_default(), payloads(events)),
            },
        )
    } else {
        None
    }
}

/// Whether `r` is what replaying `events` returns: the replayed state, or
/// `VersionInconsistent` when the stream does not replay.
pub open spec fn is_replay_of<A: Aggregate, E>(
    r: Result<VersionedAggregate<A>, ReplayAggregateError<E>>,
    events: Seq<VersionedEvent<A>>,
) -> bool {
    match r {
        Ok(va) => replayed(events) == Some(va@),
        Err(e) => replayed(events) is None && e == ReplayAggregateError::<E>::VersionInconsistent,
    }
}

/// `events` numbered with the versions that follow `after`.
pub open spec fn numbered<A: Aggregate>(events: Seq<A::Event>, after: Version) -> Seq<
    VersionedEvent<A>,
> {
    Seq::new(
        events.len(),
        |i: int| VersionedEvent { version: Version((after.0 + i + 1) as u64), event: events[i] },
    )
}

/// `events`, each paired with the identifier `id`.
pub open spec fn tagged<A: Aggregate>(id: Id<A>, events: Seq<VersionedEvent<A>>) -> Seq<
    (Id<A>, VersionedEvent<A>),
> {
    events.map_values(|e: VersionedEvent<A>| (id, e))
}

/// Whether `n` events can be numbered after `after` without passing the
/// largest version.
pub open spec fn fits_after(after: Version, n: nat) -> bool {
    after.0 + n <= u64::MAX
}

/// A stream with no events replays to the default state at version zero.
pub proof fn lemma_replay_empty<A: Aggregate>()
    ensures
        replayed::<A>(Seq::empty()) == Some(VersionedAggregate::<A>::spec_default()),
{
    assert(payloads::<A>(Seq::empty()) == Seq::<A::Event>::empty());
}

/// A stream whose versions are exactly 1, 2, ..., n in stored order replays
/// to version n and to its events folded over the default state, left to
/// right.
pub proof fn lemma_replay_sequential<A: Aggregate>(events: Seq<VersionedEvent<A>>)
    requires
        forall|i: int| 0 <= i < events.len() ==> (#[trigger] events[i]).version.0 == i + 1,
    ensures
        replayed(events) == Some(
            VersionedState {
                version: Version(events.len() as u64),
                aggregate: apply_events::<A>(A::spec_default(), payloads(events)),
            },
        ),
{
}

/// A stream in which some event does not carry the version right after the
/// one before it (a gap, a duplicate or a reordering) does not replay.
pub proof fn lemma_replay_inconsistent<A: Aggregate>(events: Seq<VersionedEvent<A>>, k: int)
    requires
        0 <= k < events.len(),
        events[k].version.0 != (if k == 0 {
            0
        } else {
            events[k - 1].version.0 as int
        }) + 1,
    ensures
        replayed(events) is None,
{
    if versions_sequential(events) {
        assert(events[k].version.0 == k + 1);
        if k > 0 {
            assert(events[k - 1].version.0 == k);
        }
    }
}

/// Applying `p` and then `q` is applying `p + q`.
pub proof fn lemma_apply_events_append<A: Aggregate>(aggregate: A::V, p: Seq<A::Event>, q: Seq<A::Event>)
    ensures
        apply_events::<A>(aggregate, p + q) == apply_events::<A>(apply_events::<A>(aggregate, p), q),
    decreases q.len(),
{
    if q.len() == 0 {
        assert(p + q == p);
    } else {
        assert((p + q).drop_last() == p + q.drop_last());
        lemma_apply_events_append::<A>(aggregate, p, q.drop_last());
    }
}

/// Appending to a stream that replays the events of a command, numbered with
/// the versions that follow, gives a stream that replays to those events
/// applied to the prior state, at the version advanced by their number.
pub proof fn lemma_replay_after_execute<A: Aggregate>(
    stream: Seq<VersionedEvent<A>>,
    events: Seq<A::Event>,
)
    requires
        replayed(stream) is Some,
        fits_after(replayed(stream)->Some_0.version, events.len()),
    ensures
        ({
            let va = replayed(stream)->Some_0;
            replayed(stream + numbered(events, va.version)) == Some(
                VersionedState {
                    version: Version((va.version.0 + events.len()) as u64),
                    aggregate: apply_events::<A>(va.aggregate, events),
                },
            )
        }),
{
    let va = replayed(stream)->Some_0;
    let t = stream + numbered::<A>(events, va.version);
    assert forall|i: int| 0 <= i < t.len() implies (#[trigger] t[i]).version.0 == i + 1 by {
        if i >= stream.len() {
            assert(t[i] == numbered::<A>(events, va.version)[i - stream.len()]);
        }
    }
    assert(payloads(t) == payloads(stream) + events);
    lemma_apply_events_append::<A>(A::spec_default(), payloads(stream), events);
}

/// What replay returns for the result of reading a stream: a failed read
/// as `Read` with the backend's own error, else the replay of the events
/// read.
pub fn replay_read<A: Aggregate, E>(read: Result<Vec<VersionedEvent<A>>, E>) -> (r: Result<
    VersionedAggregate<A>,
    ReplayAggregateError<E>,
>)
    ensures
        match read {
            Err(e) => r == Err::<VersionedAggregate<A>, _>(ReplayAggregateError::Read(e)),
            Ok(events) => is_replay_of(r, events@),
        },
{
    match read {
        Err(e) => Err(ReplayAggregateError::Read(e)),
        Ok(events) => replay_events(events),
    }
}

/// Reading is free of side effects and repeatable: a read takes the backend
/// by shared reference, so two reads of one stream with no insert between
/// them see the same backend, and when both succeed they return the same
/// sequence, the stored one.
pub proof fn lemma_read_repeatable<A: Aggregate, S: EventStorage<A>>(
    storage: &S,
    id: Id<A>,
    first: Seq<VersionedEvent<A>>,
    second: Seq<VersionedEvent<A>>,
)
    requires
        first == storage.stream(id),
        second == storage.stream(id),
    ensures
        first == second,
        first == storage.stream(id),
{
}

/// Replays `events`: starting from version zero and the default state, each
/// event must carry the version that directly follows the current one, and is
/// then applied.
pub fn replay_events<A: Aggregate, E>(events: Vec<VersionedEvent<A>>) -> (r: Result<
    VersionedAggregate<A>,
    ReplayAggregateError<E>,
>)
    ensures
        is_replay_of(r, events@),
{
    let mut current: VersionedAggregate<A> = VersionedAggregate::default();
    let mut i: usize = 0;
    while i < events.len()
        invariant
            0 <= i <= events.len(),
            versions_sequential(events@.subrange(0, i as int)),
            current.version.0 == i,
            current.aggregate@ == apply_events::<A>(
                A::spec_default(),
                payloads(events@.subrange(0, i as int)),
            ),
        decreases events.len() - i,
    {
        let e = events[i].duplicate();
        if !e.version.is_next_of(&current.version) {
            proof {
                assert(!versions_sequential(events@)) by {
                    assert(events@[i as int].version.0 != i + 1);
                }
            }
            return Err(ReplayAggregateError::VersionInconsistent);
        }
        proof {
            let next = events@.subrange(0, i + 1);
            assert(next.drop_last() == events@.subrange(0, i as int));
            assert(payloads(next).drop_last() == payloads(events@.subrange(0, i as int)));
        }
        e.event.apply_to(&mut current.aggregate);
        current.version = e.version;
        i = i + 1;
    }
    proof {
        assert(events@.subrange(0, events@.len() as int) == events@);
    }
    Ok(current)
}

/// Whether `r` reports that the backend failed to read.
pub open spec fn is_read_error<T, E>(r: Result<T, ReplayAggregateError<E>>) -> bool {
    r matches Err(ReplayAggregateError::Read(_))
}

/// The persistence contract that replay and command execution run on. Each
/// identifier names one stream of versioned events.
pub trait EventStorage<A: Aggregate>: Sized {
    type Error: EventStorageError;

    /// The events stored for `id`, in the order they were stored. Each
    /// backend states its own; the default body says nothing of it.
    open spec fn stream(&self, id: Id<A>) -> Seq<VersionedEvent<A>> {
        arbitrary()
    }

    /// The notifications handed to `project` so far, in order: the
    /// identifier and the recorded event. Each backend states its own; the
    /// default body says nothing of it.
    open spec fn projected(&self) -> Seq<(Id<A>, VersionedEvent<A>)> {
        arbitrary()
    }

    /// Whether no insert or read of this backend ever fails. A backend that
    /// does I/O leaves it false.
    open spec fn infallible() -> bool {
        false
    }

    /// Appends `event` to the stream of `id`. Any version is accepted. A
    /// failed insert records nothing.
    fn insert(&mut self, id: Id<A>, event: VersionedEvent<A>) -> (r: Result<(), Self::Error>)
        ensures
            Self::infallible() ==> r is Ok,
            r is Ok ==> final(self).stream(id) == old(self).stream(id).push(event),
            r is Err ==> final(self).stream(id) == old(self).stream(id),
            final(self).projected() == old(self).projected(),
            forall|other: Id<A>|
                other != id ==> #[trigger] final(self).stream(other) == old(self).stream(other),
    ;

    /// All events of the stream of `id`, in stored order; an empty sequence
    /// for a stream that does not exist.
    fn read(&self, id: Id<A>) -> (r: Result<Vec<VersionedEvent<A>>, Self::Error>)
        ensures
            Self::infallible() ==> r is Ok,
            r is Ok ==> r->Ok_0@ == self.stream(id),
    ;

    /// Notifies the derived read-models that `event` was recorded for `id`
    /// and that `snapshot` is the state after it.
    fn project(&mut self, id: Id<A>, event: &VersionedEvent<A>, snapshot: &VersionedAggregate<A>)
        ensures
            forall|i: Id<A>| #[trigger] final(self).stream(i) == old(self).stream(i),
            final(self).projected() == old(self).projected().push((id, *event)),
    ;

    /// The current state of the stream of `id`: its events folded over the
    /// default state, each checked to carry the version after the last.
    fn replay_aggregate(&self, id: Id<A>) -> (r: Result<
        VersionedAggregate<A>,
        ReplayAggregateError<Self::Error>,
    >)
        ensures
            Self::infallible() ==> !is_read_error(r),
            !is_read_error(r) ==> is_replay_of(r, self.stream(id)),
    {
        replay_read(self.read(id))
    }

    /// Replays the stream of `id`, runs `command` on the state, numbers the
    /// events it yields with the versions that follow, and inserts them one at
    /// a time. When all are recorded, each is handed to `project` in order.
    fn execute_command(&mut self, id: Id<A>, command: A::Command) -> (r: Result<
        (),
        ExecuteCommandError<Self::Error, CommandErrorOf<A>>,
    >)
        ensures
            forall|other: Id<A>|
                other != id ==> #[trigger] final(self).stream(other) == old(self).stream(other),
            r is Ok ==> final(self).projected() == old(self).projected() + tagged(
                id,
                numbered(
                    command.spec_execute_on(replayed(old(self).stream(id))->Some_0.aggregate)->Ok_0,
                    replayed(old(self).stream(id))->Some_0.version,
                ),
            ),
            r is Err ==> final(self).projected() == old(self).projected(),
            ({
                let va = replayed(old(self).stream(id))->Some_0;
                let outcome = command.spec_execute_on(va.aggregate);
                Self::infallible() && replayed(old(self).stream(id)) is Some && outcome is Ok
                    && fits_after(va.version, outcome->Ok_0.len()) ==> r is Ok
            }),
            Self::infallible() ==> !(r matches Err(ExecuteCommandError::Insert(_))),
            Self::infallible() ==> !(r matches Err(
                ExecuteCommandError::ReplayAggregate(ReplayAggregateError::Read(_)),
            )),
            match r {
                Ok(()) => {
                    let va = replayed(old(self).stream(id))->Some_0;
                    let events = command.spec_execute_on(va.aggregate)->Ok_0;
                    &&& replayed(old(self).stream(id)) is Some
                    &&& command.spec_execute_on(va.aggregate) is Ok
                    &&& fits_after(va.version, events.len())
                    &&& final(self).stream(id) == old(self).stream(id) + numbered(events, va.version)
                },
                Err(ExecuteCommandError::ReplayAggregate(ReplayAggregateError::Read(_))) => {
                    final(self).stream(id) == old(self).stream(id)
                },
                Err(ExecuteCommandError::ReplayAggregate(ReplayAggregateError::VersionInconsistent)) => {
                    &&& replayed(old(self).stream(id)) is None
                    &&& final(self).stream(id) == old(self).stream(id)
                },
                Err(ExecuteCommandError::Command(c)) => {
                    let va = replayed(old(self).stream(id))->Some_0;
                    &&& replayed(old(self).stream(id)) is Some
                    &&& command.spec_execute_on(va.aggregate) == Err::<Seq<A::Event>, _>(c)
                    &&& final(self).stream(id) == old(self).stream(id)
                },
                Err(ExecuteCommandError::VersionOverflow) => {
                    let va = replayed(old(self).stream(id))->Some_0;
                    let events = command.spec_execute_on(va.aggregate)->Ok_0;
                    &&& replayed(old(self).stream(id)) is Some
                    &&& command.spec_execute_on(va.aggregate) is Ok
                    &&& !fits_after(va.version, events.len())
                    &&& final(self).stream(id) == old(self).stream(id)
                },
                Err(ExecuteCommandError::Insert(_)) => {
                    let va = replayed(old(self).stream(id))->Some_0;
                    let events = command.spec_execute_on(va.aggregate)->Ok_0;
                    &&& replayed(old(self).stream(id)) is Some
                    &&& command.spec_execute_on(va.aggregate) is Ok
                    &&& fits_after(va.version, events.len())
                    &&& exists|j: int|
                        0 <= j < events.len() && final(self).stream(id) == old(self).stream(id)
                            + numbered(events, va.version).take(j)
                },
            },
    {
        let ghost s0 = self.stream(id);
        let aggregate = match self.replay_aggregate(id) {
            Ok(a) => a,
            Err(e) => {
                return Err(ExecuteCommandError::ReplayAggregate(e));
            },
        };
        let ghost command_spec = command;
        let events = match command.execute_on(&aggregate.aggregate) {
            Ok(events) => events,
            Err(e) => {
                return Err(ExecuteCommandError::Command(e));
            },
        };
        let n = events.len();
        if aggregate.version.0 > u64::MAX - (n as u64) {
            return Err(ExecuteCommandError::VersionOverflow);
        }
        let ghost targets = numbered::<A>(events@, aggregate.version);
        let mut recorded: Vec<VersionedEvent<A>> = Vec::new();
        let mut version = aggregate.version;
        let mut i: usize = 0;
        while i < n
            invariant
                n == events.len(),
                i <= n,
                s0 == old(self).stream(id),
                replayed(s0) == Some(aggregate@),
                command_spec == command,
                command_spec.spec_execute_on(aggregate.aggregate@) == Ok::<Seq<A::Event>, CommandErrorOf<A>>(events@),
                aggregate.version.0 + n <= u64::MAX,
                version.0 == aggregate.version.0 + i,
                targets == numbered::<A>(events@, aggregate.version),
                recorded@ == targets.subrange(0, i as int),
                self.stream(id) == s0 + recorded@,
                forall|other: Id<A>|
                    other != id ==> #[trigger] self.stream(other) == old(self).stream(other),
                self.projected() == old(self).projected(),
            decreases n - i,
        {
            version = version.next();
            let e = VersionedEvent { version, event: events[i].duplicate() };
            let kept = e.duplicate();
            match self.insert(id, e) {
                Ok(()) => {},
                Err(err) => {
                    proof {
                        assert(targets.take(i as int) == targets.subrange(0, i as int));
                    }
                    return Err(ExecuteCommandError::Insert(err));
                },
            }
            recorded.push(kept);
            proof {
                assert(recorded@ == targets.subrange(0, i + 1));
            }
            i = i + 1;
        }
        proof {
            assert(targets.subrange(0, n as int) == targets);
        }
        let mut snapshot = aggregate;
        let mut j: usize = 0;
        while j < n
            invariant
                n == recorded.len(),
                j <= n,
                forall|other: Id<A>| #[trigger] self.stream(other) == old(self).stream(other) || other == id,
                self.stream(id) == s0 + recorded@,
                recorded@ == targets,
                self.projected() == old(self).projected() + tagged(id, recorded@.subrange(0, j as int)),
            decreases n - j,
        {
            let e = recorded[j].duplicate();
            let v = e.version;
            e.event.apply_to(&mut snapshot.aggregate);
            snapshot.version = v;
            self.project(id, &recorded[j], &snapshot);
            proof {
                assert(tagged(id, recorded@.subrange(0, j + 1)) == tagged(
                    id,
                    recorded@.subrange(0, j as int),
                ).push((id, recorded@[j as int])));
            }
            j = j + 1;
        }
        proof {
            assert(recorded@.subrange(0, n as int) == recorded@);
        }
        Ok(())
    }
}

} // verus!
