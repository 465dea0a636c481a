use vstd::prelude::*;

use crate::aggregate::{Aggregate, Command, CommandError, Event};
use crate::coffee::{Brand, Roast};
use crate::id::Id;
use crate::store::{lemma_replay_empty, replayed};

verus! {

/// The stock of coffee beans: not yet created, or created with its packs.
#[derive(Debug)]
pub enum StockAggregate {
    Uninitialized,
    Created { packs: Vec<Pack> },
}

/// The identifier of a stock stream.
pub type StockAggregateId = Id<StockAggregate>;

/// A pack of one bean (a brand and a roast) and how much of it is left.
#[derive(Debug, Clone)]
pub struct Pack {
    pub brand: Brand,
    pub roast: Roast,
    pub remaining_amount: RemainingAmount,
}

/// Whether a pack still holds enough to fill a canister.
#[derive(Debug, Copy, Clone, PartialEq, Eq, Structural)]
pub enum RemainingAmount {
    GteFillingCanister,
    LtFillingCanister,
}

/// The mathematical value of a pack.
pub ghost struct PackView {
    pub brand: Seq<char>,
    pub roast: Roast,
    pub remaining_amount: RemainingAmount,
}

impl View for Pack {
    type V = PackView;

    open spec fn view(&self) -> PackView {
        PackView { brand: self.brand@, roast: self.roast, remaining_amount: self.remaining_amount }
    }
}

/// The mathematical state of a stock.
pub ghost enum StockView {
    Uninitialized,
    Created { packs: Seq<PackView> },
}

impl View for StockAggregate {
    type V = StockView;

    open spec fn view(&self) -> StockView {
        match self {
            StockAggregate::Uninitialized => StockView::Uninitialized,
            StockAggregate::Created { packs } => StockView::Created {
                packs: packs@.map_values(|p: Pack| p@),
            },
        }
    }
}

/// Whether `pack` holds the bean of `brand` and `roast`.
pub open spec fn same_bean(pack: PackView, brand: Seq<char>, roast: Roast) -> bool {
    pack.brand == brand && pack.roast == roast
}

/// The index of the first pack of `packs` that holds the bean, or -1.
pub open spec fn find_bean(packs: Seq<PackView>, brand: Seq<char>, roast: Roast) -> int
    decreases packs.len(),
{
    if packs.len() == 0 {
        -1
    } else if find_bean(packs.drop_last(), brand, roast) >= 0 {
        find_bean(packs.drop_last(), brand, roast)
    } else if same_bean(packs.last(), brand, roast) {
        packs.len() - 1
    } else {
        -1
    }
}

/// `packs` without the packs that hold the bean.
pub open spec fn without_bean(packs: Seq<PackView>, brand: Seq<char>, roast: Roast) -> Seq<
    PackView,
>
    decreases packs.len(),
{
    if packs.len() == 0 {
        packs
    } else if same_bean(packs.last(), brand, roast) {
        without_bean(packs.drop_last(), brand, roast)
    } else {
        without_bean(packs.drop_last(), brand, roast).push(packs.last())
    }
}

/// `packs` with the first pack of the bean set to `amount`, or, when no pack
/// holds it, unchanged.
pub open spec fn set_amount(
    packs: Seq<PackView>,
    brand: Seq<char>,
    roast: Roast,
    amount: RemainingAmount,
) -> Seq<PackView> {
    let k = find_bean(packs, brand, roast);
    if k >= 0 {
        packs.update(k, PackView { remaining_amount: amount, ..packs[k] })
    } else {
        packs
    }
}

/// `find_bean` is the index of the first pack of the bean, or -1 when no
/// pack holds it.
proof fn lemma_find_bean(packs: Seq<PackView>, brand: Seq<char>, roast: Roast)
    ensures
        -1 <= find_bean(packs, brand, roast) < packs.len(),
        find_bean(packs, brand, roast) >= 0 ==> same_bean(
            packs[find_bean(packs, brand, roast)],
            brand,
            roast,
        ),
        find_bean(packs, brand, roast) >= 0 ==> forall|j: int|
            0 <= j < find_bean(packs, brand, roast) ==> !same_bean(#[trigger] packs[j], brand, roast),
        find_bean(packs, brand, roast) < 0 ==> forall|j: int|
            0 <= j < packs.len() ==> !same_bean(#[trigger] packs[j], brand, roast),
    decreases packs.len(),
{
    if packs.len() > 0 {
        let d = packs.drop_last();
        lemma_find_bean(d, brand, roast);
        if find_bean(d, brand, roast) >= 0 {
            assert forall|j: int| 0 <= j < find_bean(packs, brand, roast) implies !same_bean(
                #[trigger] packs[j],
                brand,
                roast,
            ) by {
                assert(d[j] == packs[j]);
            }
        } else {
            assert forall|j: int| 0 <= j < packs.len() - 1 implies !same_bean(
                #[trigger] packs[j],
                brand,
                roast,
            ) by {
                assert(d[j] == packs[j]);
            }
        }
    }
}

/// The index of the first pack of `packs` that holds the bean, if any.
fn position_of_bean(packs: &Vec<Pack>, brand: &Brand, roast: &Roast) -> (r: Option<usize>)
    ensures
        match r {
            Some(k) => k < packs@.len() && find_bean(packs@.map_values(|p: Pack| p@), brand@, *roast)
                == k,
            None => find_bean(packs@.map_values(|p: Pack| p@), brand@, *roast) == -1,
        },
{
    let ghost views = packs@.map_values(|p: Pack| p@);
    proof {
        lemma_find_bean(views, brand@, *roast);
    }
    let mut i: usize = 0;
    while i < packs.len()
        invariant
            i <= packs.len(),
            views == packs@.map_values(|p: Pack| p@),
            forall|j: int| 0 <= j < i ==> !same_bean(#[trigger] views[j], brand@, *roast),
            -1 <= find_bean(views, brand@, *roast) < views.len(),
            find_bean(views, brand@, *roast) >= 0 ==> same_bean(
                views[find_bean(views, brand@, *roast)],
                brand@,
                *roast,
            ),
            find_bean(views, brand@, *roast) >= 0 ==> forall|j: int|
                0 <= j < find_bean(views, brand@, *roast) ==> !same_bean(
                    #[trigger] views[j],
                    brand@,
                    *roast,
                ),
            find_bean(views, brand@, *roast) < 0 ==> forall|j: int|
                0 <= j < views.len() ==> !same_bean(#[trigger] views[j], brand@, *roast),
        decreases packs.len() - i,
    {
        if packs[i].is_same_bean(brand, roast) {
            assert(same_bean(views[i as int], brand@, *roast));
            return Some(i);
        }
        i = i + 1;
    }
    None
}

impl Pack {
    /// Whether the pack holds the bean of `brand` and `roast`.
    pub fn is_same_bean(&self, brand: &Brand, roast: &Roast) -> (r: bool)
        ensures
            r == same_bean(self@, brand@, *roast),
    {
        self.brand == *brand && self.roast == *roast
    }
}

impl Aggregate for StockAggregate {
    type Event = StockEvent;
    type Command = StockCommand;

    open spec fn spec_default() -> StockView {
        StockView::Uninitialized
    }

    fn default() -> (r: Self) {
        StockAggregate::Uninitialized
    }

    fn aggregate_name() -> (r: &'static str)
        ensures
            r@ == "seller/stock"@,
    {
        "seller/stock"
    }
}

#[derive(Debug)]
pub enum StockEvent {
    Created,
    Purchased { brand: Brand, roast: Roast },
    Decreased { brand: Brand, roast: Roast },
    Removed { brand: Brand, roast: Roast },
}

impl Event<StockAggregate> for StockEvent {
    /// `Created` makes an empty stock. On a created stock, `Purchased` fills
    /// the first pack of the bean, or adds a full one when there is none;
    /// `Decreased` marks the first pack of the bean as low; `Removed` drops
    /// every pack of the bean. They leave an uninitialized stock as it is.
    open spec fn spec_apply(self, aggregate: StockView) -> StockView {
        match self {
            StockEvent::Created => StockView::Created { packs: Seq::empty() },
            StockEvent::Purchased { brand, roast } => match aggregate {
                StockView::Created { packs } => StockView::Created {
                    packs: if find_bean(packs, brand@, roast) >= 0 {
                        set_amount(packs, brand@, roast, RemainingAmount::GteFillingCanister)
                    } else {
                        packs.push(
                            PackView {
                                brand: brand@,
                                roast,
                                remaining_amount: RemainingAmount::GteFillingCanister,
                            },
                        )
                    },
                },
                StockView::Uninitialized => StockView::Uninitialized,
            },
            StockEvent::Decreased { brand, roast } => match aggregate {
                StockView::Created { packs } => StockView::Created {
                    packs: set_amount(packs, brand@, roast, RemainingAmount::LtFillingCanister),
                },
                StockView::Uninitialized => StockView::Uninitialized,
            },
            StockEvent::Removed { brand, roast } => match aggregate {
                StockView::Created { packs } => StockView::Created {
                    packs: without_bean(packs, brand@, roast),
                },
                StockView::Uninitialized => StockView::Uninitialized,
            },
        }
    }

    fn apply_to(self, aggregate: &mut StockAggregate) {
        match self {
            StockEvent::Created => {
                let packs: Vec<Pack> = Vec::new();
                proof {
                    assert(packs@.map_values(|p: Pack| p@) =~= Seq::<PackView>::empty());
                }
                *aggregate = StockAggregate::Created { packs };
            },
            StockEvent::Purchased { brand, roast } => {
                match aggregate {
                    StockAggregate::Created { packs } => {
                        match position_of_bean(packs, &brand, &roast) {
                            Some(k) => {
                                set_remaining(packs, k, RemainingAmount::GteFillingCanister);
                            },
                            None => {
                                let ghost before = packs@.map_values(|p: Pack| p@);
                                let pack = Pack {
                                    brand,
                                    roast,
                                    remaining_amount: RemainingAmount::GteFillingCanister,
                                };
                                packs.push(pack);
                                proof {
                                    assert(packs@.map_values(|p: Pack| p@) == before.push(pack@));
                                }
                            },
                        }
                    },
                    StockAggregate::Uninitialized => {},
                }
            },
            StockEvent::Decreased { brand, roast } => {
                match aggregate {
                    StockAggregate::Created { packs } => {
                        match position_of_bean(packs, &brand, &roast) {
                            Some(k) => {
                                set_remaining(packs, k, RemainingAmount::LtFillingCanister);
                            },
                            None => {},
                        }
                    },
                    StockAggregate::Uninitialized => {},
                }
            },
            StockEvent::Removed { brand, roast } => {
                match aggregate {
                    StockAggregate::Created { packs } => {
                        let kept = remove_bean(packs, &brand, &roast);
                        *packs = kept;
                    },
                    StockAggregate::Uninitialized => {},
                }
            },
        }
    }

    fn duplicate(&self) -> (r: Self) {
        match self {
            StockEvent::Created => StockEvent::Created,
            StockEvent::Purchased { brand, roast } => StockEvent::Purchased {
                brand: brand.duplicate(),
                roast: *roast,
            },
            StockEvent::Decreased { brand, roast } => StockEvent::Decreased {
                brand: brand.duplicate(),
                roast: *roast,
            },
            StockEvent::Removed { brand, roast } => StockEvent::Removed {
                brand: brand.duplicate(),
                roast: *roast,
            },
        }
    }
}

/// Purchasing or using beans on a stock that was never created, which is
/// what a stream with no events replays to, is rejected as uninitialized.
pub proof fn lemma_uninitialized_rejected(brand: Brand, roast: Roast, all: bool)
    ensures
        replayed::<StockAggregate>(Seq::empty())->Some_0.aggregate == StockView::Uninitialized,
        (StockCommand::Purchase { brand, roast }).spec_execute_on(StockView::Uninitialized)
            == Err::<Seq<StockEvent>, _>(StockCommandError::Uninitialized),
        (StockCommand::Use { brand, roast, all }).spec_execute_on(StockView::Uninitialized)
            == Err::<Seq<StockEvent>, _>(StockCommandError::Uninitialized),
{
    lemma_replay_empty::<StockAggregate>();
}

/// Sets the remaining amount of pack `k` to `amount`.
fn set_remaining(packs: &mut Vec<Pack>, k: usize, amount: RemainingAmount)
    requires
        k < old(packs).len(),
    ensures
        final(packs)@.map_values(|p: Pack| p@) == old(packs)@.map_values(|p: Pack| p@).update(
            k as int,
            PackView { remaining_amount: amount, ..old(packs)@[k as int]@ },
        ),
{
    let ghost before = packs@.map_values(|p: Pack| p@);
    packs[k].remaining_amount = amount;
    proof {
        assert(packs@.map_values(|p: Pack| p@) =~= before.update(
            k as int,
            PackView { remaining_amount: amount, ..old(packs)@[k as int]@ },
        ));
    }
}

/// The packs of `packs` that do not hold the bean, in order.
fn remove_bean(packs: &Vec<Pack>, brand: &Brand, roast: &Roast) -> (r: Vec<Pack>)
    ensures
        r@.map_values(|p: Pack| p@) == without_bean(packs@.map_values(|p: Pack| p@), brand@, *roast),
{
    let ghost views = packs@.map_values(|p: Pack| p@);
    let mut out: Vec<Pack> = Vec::new();
    let mut i: usize = 0;
    while i < packs.len()
        invariant
            i <= packs.len(),
            views == packs@.map_values(|p: Pack| p@),
            out@.map_values(|p: Pack| p@) == without_bean(views.subrange(0, i as int), brand@, *roast),
        decreases packs.len() - i,
    {
        proof {
            assert(views.subrange(0, i + 1).drop_last() == views.subrange(0, i as int));
        }
        if !packs[i].is_same_bean(brand, roast) {
            let ghost before = out@.map_values(|p: Pack| p@);
            let p = Pack {
                brand: packs[i].brand.duplicate(),
                roast: packs[i].roast,
                remaining_amount: packs[i].remaining_amount,
            };
            out.push(p);
            proof {
                assert(out@.map_values(|p: Pack| p@) == before.push(p@));
            }
        }
        i = i + 1;
    }
    proof {
        assert(views.subrange(0, packs@.len() as int) == views);
    }
    out
}

#[derive(Debug)]
pub enum StockCommand {
    Create,
    Purchase { brand: Brand, roast: Roast },
    Use { brand: Brand, roast: Roast, all: bool },
}

#[derive(Debug)]
pub enum StockCommandError {
    NotInStock { brand: Brand, roast: Roast },
    AlreadyCreated,
    Uninitialized,
}

impl CommandError for StockCommandError {

}

impl Command<StockAggregate, StockEvent> for StockCommand {
    type Error = StockCommandError;

    /// `Create` needs an uninitialized stock; `Purchase` a created one;
    /// `Use` a created one with a pack of the bean, and yields `Removed` when
    /// `all` is set, else `Decreased`.
    open spec fn spec_execute_on(self, aggregate: StockView) -> Result<
        Seq<StockEvent>,
        StockCommandError,
    > {
        match self {
            StockCommand::Create => match aggregate {
                StockView::Uninitialized => Ok(seq![StockEvent::Created]),
                StockView::Created { .. } => Err(StockCommandError::AlreadyCreated),
            },
            StockCommand::Purchase { brand, roast } => match aggregate {
                StockView::Created { .. } => Ok(seq![StockEvent::Purchased { brand, roast }]),
                StockView::Uninitialized => Err(StockCommandError::Uninitialized),
            },
            StockCommand::Use { brand, roast, all } => match aggregate {
                StockView::Created { packs } => if find_bean(packs, brand@, roast) >= 0 {
                    if all {
                        Ok(seq![StockEvent::Removed { brand, roast }])
                    } else {
                        Ok(seq![StockEvent::Decreased { brand, roast }])
                    }
                } else {
                    Err(StockCommandError::NotInStock { brand, roast })
                },
                StockView::Uninitialized => Err(StockCommandError::Uninitialized),
            },
        }
    }

    fn execute_on(self, aggregate: &StockAggregate) -> (r: Result<
        Vec<StockEvent>,
        StockCommandError,
    >) {
        match self {
            StockCommand::Create => match aggregate {
                StockAggregate::Uninitialized => {
                    let r = vec![StockEvent::Created];
                    proof {
                        assert(r@ == seq![StockEvent::Created]);
                    }
                    Ok(r)
                },
                StockAggregate::Created { .. } => Err(StockCommandError::AlreadyCreated),
            },
            StockCommand::Purchase { brand, roast } => match aggregate {
                StockAggregate::Created { .. } => {
                    let ghost e = StockEvent::Purchased { brand, roast };
                    let r = vec![StockEvent::Purchased { brand, roast }];
                    proof {
                        assert(r@ == seq![e]);
                    }
                    Ok(r)
                },
                StockAggregate::Uninitialized => Err(StockCommandError::Uninitialized),
            },
            StockCommand::Use { brand, roast, all } => match aggregate {
                StockAggregate::Created { packs } => {
                    if position_of_bean(packs, &brand, &roast).is_some() {
                        if all {
                            let ghost e = StockEvent::Removed { brand, roast };
                            let r = vec![StockEvent::Removed { brand, roast }];
                            proof {
                                assert(r@ == seq![e]);
                            }
                            Ok(r)
                        } else {
                            let ghost e = StockEvent::Decreased { brand, roast };
                            let r = vec![StockEvent::Decreased { brand, roast }];
                            proof {
                                assert(r@ == seq![e]);
                            }
                            Ok(r)
                        }
                    } else {
                        Err(StockCommandError::NotInStock { brand, roast })
                    }
                },
                StockAggregate::Uninitialized => Err(StockCommandError::Uninitialized),
            },
        }
    }
}

} // verus!
