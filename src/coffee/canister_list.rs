use vstd::prelude::*;

use crate::aggregate::{Aggregate, Command, CommandError, Event};
use crate::id::Id;
use crate::store::{lemma_replay_empty, numbered, replayed};
use crate::version::{Version, VersionedEvent};
use crate::record::same_text;

verus! {

/// The registry of canisters: not yet created, or created with the
/// canisters added so far.
#[derive(Debug)]
pub enum CanisterListAggregate {
    Uninitialized,
    Created { canisters: Vec<Canister> },
}

/// A canister: each of its identifier, color and name is unique in a
/// registry.
#[derive(Debug, Copy, Clone, PartialEq, Eq, Structural)]
pub struct Canister {
    pub id: CanisterId,
    pub color: Color,
    pub name: Name,
}

/// The identifier of a canister: the 128-bit value of a UUID.
#[derive(Debug, Copy, Clone, PartialEq, Eq, Structural)]
pub struct CanisterId(pub u128);

#[derive(Debug, Copy, Clone, PartialEq, Eq, Structural)]
pub enum Color {
    Blue,
    Green,
    Red,
    Purple,
}

#[derive(Debug, Copy, Clone, PartialEq, Eq, Structural)]
pub enum Name {
    Matsubara,
    Matsumoto,
    Manchose,
    Makabe,
}

/// The identifier of a registry stream.
pub type CanisterListAggregateId = Id<CanisterListAggregate>;

/// The color that the lower-case word `w` names, if any.
pub open spec fn color_named(w: Seq<char>) -> Option<Color> {
    if w == "blue"@ {
        Some(Color::Blue)
    } else if w == "green"@ {
        Some(Color::Green)
    } else if w == "red"@ {
        Some(Color::Red)
    } else if w == "purple"@ {
        Some(Color::Purple)
    } else {
        None
    }
}

/// The name that the lower-case word `w` names, if any.
pub open spec fn name_named(w: Seq<char>) -> Option<Name> {
    if w == "matsubara"@ {
        Some(Name::Matsubara)
    } else if w == "matsumoto"@ {
        Some(Name::Matsumoto)
    } else if w == "manchose"@ {
        Some(Name::Manchose)
    } else if w == "makabe"@ {
        Some(Name::Makabe)
    } else {
        None
    }
}

impl Color {
    /// The color named by the lower-case word `s`.
    pub fn from_str(s: &str) -> (r: Result<Color, &'static str>)
        ensures
            match color_named(s@) {
                Some(c) => r == Ok::<Color, &'static str>(c),
                None => r is Err,
            },
    {
        if same_text(s, "blue") {
            Ok(Color::Blue)
        } else if same_text(s, "green") {
            Ok(Color::Green)
        } else if same_text(s, "red") {
            Ok(Color::Red)
        } else if same_text(s, "purple") {
            Ok(Color::Purple)
        } else {
            Err("one of blue, green, red or purple is expected")
        }
    }
}

impl Name {
    /// The name named by the lower-case word `s`.
    pub fn from_str(s: &str) -> (r: Result<Name, &'static str>)
        ensures
            match name_named(s@) {
                Some(n) => r == Ok::<Name, &'static str>(n),
                None => r is Err,
            },
    {
        if same_text(s, "matsubara") {
            Ok(Name::Matsubara)
        } else if same_text(s, "matsumoto") {
            Ok(Name::Matsumoto)
        } else if same_text(s, "manchose") {
            Ok(Name::Manchose)
        } else if same_text(s, "makabe") {
            Ok(Name::Makabe)
        } else {
            Err("one of matsubara, matsumoto, manchose or makabe is expected")
        }
    }
}

/// The mathematical state of a registry.
pub ghost enum CanisterListView {
    Uninitialized,
    Created { canisters: Seq<Canister> },
}

impl View for CanisterListAggregate {
    type V = CanisterListView;

    open spec fn view(&self) -> CanisterListView {
        match self {
            CanisterListAggregate::Uninitialized => CanisterListView::Uninitialized,
            CanisterListAggregate::Created { canisters } => CanisterListView::Created {
                canisters: canisters@,
            },
        }
    }
}

impl Aggregate for CanisterListAggregate {
    type Event = CanisterListEvent;
    type Command = CanisterListCommand;

    open spec fn spec_default() -> CanisterListView {
        CanisterListView::Uninitialized
    }

    fn default() -> (r: Self) {
        CanisterListAggregate::Uninitialized
    }

    fn aggregate_name() -> (r: &'static str)
        ensures
            r@ == "canister_list"@,
    {
        "canister_list"
    }
}

#[derive(Debug)]
pub enum CanisterListEvent {
    Created,
    CanisterAdded(Canister),
}

impl Event<CanisterListAggregate> for CanisterListEvent {
    /// `Created` makes an empty registry; `CanisterAdded` appends to a
    /// created registry and leaves an uninitialized one as it is.
    open spec fn spec_apply(self, aggregate: CanisterListView) -> CanisterListView {
        match self {
            CanisterListEvent::Created => CanisterListView::Created { canisters: Seq::empty() },
            CanisterListEvent::CanisterAdded(c) => match aggregate {
                CanisterListView::Created { canisters } => CanisterListView::Created {
                    canisters: canisters.push(c),
                },
                CanisterListView::Uninitialized => CanisterListView::Uninitialized,
            },
        }
    }

    fn apply_to(self, aggregate: &mut CanisterListAggregate) {
        match self {
            CanisterListEvent::Created => {
                *aggregate = CanisterListAggregate::Created { canisters: Vec::new() };
            },
            CanisterListEvent::CanisterAdded(c) => {
                match aggregate {
                    CanisterListAggregate::Created { canisters } => {
                        canisters.push(c);
                    },
                    CanisterListAggregate::Uninitialized => {},
                }
            },
        }
    }

    fn duplicate(&self) -> (r: Self) {
        match self {
            CanisterListEvent::Created => CanisterListEvent::Created,
            CanisterListEvent::CanisterAdded(c) => CanisterListEvent::CanisterAdded(*c),
        }
    }
}

#[derive(Debug)]
pub enum CanisterListCommand {
    Create,
    AddCanister(Canister),
}

#[derive(Debug, PartialEq, Eq, Structural)]
pub enum CanisterListCommandError {
    IdDuplicated,
    NameDuplicated,
    ColorDuplicated,
    AlreadyCreated,
    Uninitialized,
}

impl CommandError for CanisterListCommandError {

}

/// What adding `adding` to `canisters` yields: an error for the first of
/// identifier, color and name that some canister already has, else the
/// `CanisterAdded` event.
pub open spec fn spec_add(canisters: Seq<Canister>, adding: Canister) -> Result<
    Seq<CanisterListEvent>,
    CanisterListCommandError,
> {
    if exists|i: int| 0 <= i < canisters.len() && (#[trigger] canisters[i]).id == adding.id {
        Err(CanisterListCommandError::IdDuplicated)
    } else if exists|i: int|
        0 <= i < canisters.len() && (#[trigger] canisters[i]).color == adding.color {
        Err(CanisterListCommandError::ColorDuplicated)
    } else if exists|i: int| 0 <= i < canisters.len() && (#[trigger] canisters[i]).name == adding.name {
        Err(CanisterListCommandError::NameDuplicated)
    } else {
        Ok(seq![CanisterListEvent::CanisterAdded(adding)])
    }
}

/// Creating a registry that was never created yields exactly one `Created`
/// event, which gets version one; creating it again is rejected as
/// already created.
pub proof fn lemma_create_once()
    ensures
        CanisterListCommand::Create.spec_execute_on(CanisterListView::Uninitialized) == Ok::<
            Seq<CanisterListEvent>,
            CanisterListCommandError,
        >(seq![CanisterListEvent::Created]),
        numbered::<CanisterListAggregate>(seq![CanisterListEvent::Created], Version(0)) == seq![
            VersionedEvent::<CanisterListAggregate> {
                version: Version(1),
                event: CanisterListEvent::Created,
            },
        ],
        CanisterListCommand::Create.spec_execute_on(
            CanisterListEvent::Created.spec_apply(CanisterListView::Uninitialized),
        ) == Err::<Seq<CanisterListEvent>, CanisterListCommandError>(
            CanisterListCommandError::AlreadyCreated,
        ),
{
    assert(numbered::<CanisterListAggregate>(seq![CanisterListEvent::Created], Version(0))
        =~= seq![
        VersionedEvent::<CanisterListAggregate> {
            version: Version(1),
            event: CanisterListEvent::Created,
        },
    ]);
}

/// Adding a canister whose identifier, color or name a canister of the
/// registry already has is rejected with a duplicate error, so nothing is
/// recorded.
pub proof fn lemma_duplicate_rejected(canisters: Seq<Canister>, adding: Canister, i: int)
    requires
        0 <= i < canisters.len(),
        canisters[i].id == adding.id || canisters[i].color == adding.color || canisters[i].name
            == adding.name,
    ensures
        ({
            let r = CanisterListCommand::AddCanister(adding).spec_execute_on(
                CanisterListView::Created { canisters },
            );
            r == Err::<Seq<CanisterListEvent>, _>(CanisterListCommandError::IdDuplicated) || r
                == Err::<Seq<CanisterListEvent>, _>(CanisterListCommandError::ColorDuplicated) || r
                == Err::<Seq<CanisterListEvent>, _>(CanisterListCommandError::NameDuplicated)
        }),
{
    let c = canisters[i];
    assert(c == canisters[i]);
}

/// Adding a canister to a registry that was never created, which is what a
/// stream with no events replays to, is rejected as uninitialized.
pub proof fn lemma_add_uninitialized_rejected(adding: Canister)
    ensures
        replayed::<CanisterListAggregate>(Seq::empty())->Some_0.aggregate
            == CanisterListView::Uninitialized,
        CanisterListCommand::AddCanister(adding).spec_execute_on(CanisterListView::Uninitialized)
            == Err::<Seq<CanisterListEvent>, _>(CanisterListCommandError::Uninitialized),
{
    lemma_replay_empty::<CanisterListAggregate>();
}

/// Which unique field of `adding` some canister of `canisters` already
/// holds, checking identifier, then color, then name.
fn find_duplicate(canisters: &Vec<Canister>, adding: &Canister) -> (r: Option<
    CanisterListCommandError,
>)
    ensures
        match spec_add(canisters@, *adding) {
            Ok(_) => r is None,
            Err(e) => r == Some(e),
        },
{
    let mut i: usize = 0;
    while i < canisters.len()
        invariant
            i <= canisters.len(),
            forall|k: int| 0 <= k < i ==> (#[trigger] canisters@[k]).id != adding.id,
        decreases canisters.len() - i,
    {
        if canisters[i].id == adding.id {
            return Some(CanisterListCommandError::IdDuplicated);
        }
        i = i + 1;
    }
    i = 0;
    while i < canisters.len()
        invariant
            i <= canisters.len(),
            forall|k: int| 0 <= k < canisters.len() ==> (#[trigger] canisters@[k]).id != adding.id,
            forall|k: int| 0 <= k < i ==> (#[trigger] canisters@[k]).color != adding.color,
        decreases canisters.len() - i,
    {
        if canisters[i].color == adding.color {
            return Some(CanisterListCommandError::ColorDuplicated);
        }
        i = i + 1;
    }
    i = 0;
    while i < canisters.len()
        invariant
            i <= canisters.len(),
            forall|k: int| 0 <= k < canisters.len() ==> (#[trigger] canisters@[k]).id != adding.id,
            forall|k: int|
                0 <= k < canisters.len() ==> (#[trigger] canisters@[k]).color != adding.color,
            forall|k: int| 0 <= k < i ==> (#[trigger] canisters@[k]).name != adding.name,
        decreases canisters.len() - i,
    {
        if canisters[i].name == adding.name {
            return Some(CanisterListCommandError::NameDuplicated);
        }
        i = i + 1;
    }
    None
}

impl Command<CanisterListAggregate, CanisterListEvent> for CanisterListCommand {
    type Error = CanisterListCommandError;

    /// `Create` needs an uninitialized registry; `AddCanister` needs a
    /// created one in which no canister shares the new one's identifier,
    /// color or name.
    open spec fn spec_execute_on(self, aggregate: CanisterListView) -> Result<
        Seq<CanisterListEvent>,
        CanisterListCommandError,
    > {
        match self {
            CanisterListCommand::Create => match aggregate {
                CanisterListView::Uninitialized => Ok(seq![CanisterListEvent::Created]),
                CanisterListView::Created { .. } => Err(CanisterListCommandError::AlreadyCreated),
            },
            CanisterListCommand::AddCanister(adding) => match aggregate {
                CanisterListView::Created { canisters } => spec_add(canisters, adding),
                CanisterListView::Uninitialized => Err(CanisterListCommandError::Uninitialized),
            },
        }
    }

    fn execute_on(self, aggregate: &CanisterListAggregate) -> (r: Result<
        Vec<CanisterListEvent>,
        CanisterListCommandError,
    >) {
        match self {
            CanisterListCommand::Create => match aggregate {
                CanisterListAggregate::Uninitialized => {
                    let r = vec![CanisterListEvent::Created];
                    proof {
                        assert(r@ == seq![CanisterListEvent::Created]);
                    }
                    Ok(r)
                },
                CanisterListAggregate::Created { .. } => Err(
                    CanisterListCommandError::AlreadyCreated,
                ),
            },
            CanisterListCommand::AddCanister(adding) => match aggregate {
                CanisterListAggregate::Created { canisters } => {
                    match find_duplicate(canisters, &adding) {
                        Some(e) => Err(e),
                        None => {
                            let r = vec![CanisterListEvent::CanisterAdded(adding)];
                            proof {
                                assert(r@ == seq![CanisterListEvent::CanisterAdded(adding)]);
                            }
                            Ok(r)
                        },
                    }
                },
                CanisterListAggregate::Uninitialized => Err(CanisterListCommandError::Uninitialized),
            },
        }
    }
}

} // verus!
