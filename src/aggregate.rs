use vstd::prelude::*;

verus! {

/// The current state of one event stream. A type becomes an aggregate by
/// naming its event and command types and by giving its empty state. Its
/// view is the mathematical state that events and commands are specified on.
pub trait Aggregate: View + Sized {
    type Event: Event<Self>;
    type Command: Command<Self, Self::Event>;

    /// The state of a stream to which no event has been applied. Each
    /// aggregate states its own; the default body says nothing of it.
    open spec fn spec_default() -> Self::V {
        arbitrary()
    }

    fn default() -> (r: Self)
        ensures
            r@ == Self::spec_default(),
    ;

    /// A `/`-separated name of the aggregate type.
    fn aggregate_name() -> (r: &'static str);
}

/// An immutable fact about aggregates `A`; applying it to any state never
/// fails.
pub trait Event<A: View>: Sized {
    /// The state that results from applying `self` to `aggregate`. Each
    /// event type states its own; the default body says nothing of it.
    open spec fn spec_apply(self, aggregate: A::V) -> A::V {
        arbitrary()
    }

    fn apply_to(self, aggregate: &mut A)
        ensures
            final(aggregate)@ == self.spec_apply(old(aggregate)@),
    ;

    /// An exact copy of the event.
    fn duplicate(&self) -> (r: Self)
        ensures
            r == *self,
    ;
}

/// A marker for the errors that a command reports.
pub trait CommandError {}

/// An intent on aggregates `A` whose events are `E`, validated against the
/// current state. It has no side effect: it yields the events to record, or
/// an error.
pub trait Command<A: View, E>: Sized {
    type Error: CommandError;

    /// What executing `self` against `aggregate` yields. Each command type
    /// states its own; the default body says nothing of it.
    open spec fn spec_execute_on(self, aggregate: A::V) -> Result<Seq<E>, Self::Error> {
        arbitrary()
    }

    fn execute_on(self, aggregate: &A) -> (r: Result<Vec<E>, Self::Error>)
        ensures
            match r {
                Ok(events) => self.spec_execute_on(aggregate@) == Ok::<Seq<E>, Self::Error>(events@),
                Err(e) => self.spec_execute_on(aggregate@) == Err::<Seq<E>, Self::Error>(e),
            },
    ;
}

} // verus!
