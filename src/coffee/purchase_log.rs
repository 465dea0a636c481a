use vstd::prelude::*;

use crate::aggregate::{Aggregate, Command, CommandError, Event};
use crate::coffee::{Brand, Gram, Roast};
use crate::id::Id;
use crate::projector::Projector;
use crate::version::{VersionedAggregate, VersionedEvent};

verus! {

/// A calendar date, as year, month (1 to 12) and day of the month.
#[derive(Debug, Copy, Clone, PartialEq, Eq, Structural)]
pub struct Date {
    pub year: i32,
    pub month: u32,
    pub day: u32,
}

/// One purchase of beans: not yet recorded, or recorded with what was
/// bought, how much and when.
#[derive(Debug)]
pub enum PurchaseLogAggregate {
    Uninitialized,
    Created { brand: Brand, roast: Roast, gram: Gram, date: Date },
}

/// The identifier of a purchase log stream.
pub type PurchaseLogAggregateId = Id<PurchaseLogAggregate>;

/// The mathematical state of a purchase log.
pub ghost enum PurchaseLogView {
    Uninitialized,
    Created { brand: Seq<char>, roast: Roast, gram: Gram, date: Date },
}

impl View for PurchaseLogAggregate {
    type V = PurchaseLogView;

    open spec fn view(&self) -> PurchaseLogView {
        match self {
            PurchaseLogAggregate::Uninitialized => PurchaseLogView::Uninitialized,
            PurchaseLogAggregate::Created { brand, roast, gram, date } => PurchaseLogView::Created {
                brand: brand@,
                roast: *roast,
                gram: *gram,
                date: *date,
            },
        }
    }
}

impl Aggregate for PurchaseLogAggregate {
    type Event = PurchaseLogEvent;
    type Command = PurchaseLogCommand;

    open spec fn spec_default() -> PurchaseLogView {
        PurchaseLogView::Uninitialized
    }

    fn default() -> (r: Self) {
        PurchaseLogAggregate::Uninitialized
    }

    fn aggregate_name() -> (r: &'static str)
        ensures
            r@ == "seller/purchase_log"@,
    {
        "seller/purchase_log"
    }
}

#[derive(Debug)]
pub enum PurchaseLogEvent {
    Created { brand: Brand, roast: Roast, gram: Gram, date: Date },
}

impl Event<PurchaseLogAggregate> for PurchaseLogEvent {
    /// `Created` records the purchase, whatever the state before.
    open spec fn spec_apply(self, aggregate: PurchaseLogView) -> PurchaseLogView {
        match self {
            PurchaseLogEvent::Created { brand, roast, gram, date } => PurchaseLogView::Created {
                brand: brand@,
                roast,
                gram,
                date,
            },
        }
    }

    fn apply_to(self, aggregate: &mut PurchaseLogAggregate) {
        match self {
            PurchaseLogEvent::Created { brand, roast, gram, date } => {
                *aggregate = PurchaseLogAggregate::Created { brand, roast, gram, date };
            },
        }
    }

    fn duplicate(&self) -> (r: Self) {
        match self {
            PurchaseLogEvent::Created { brand, roast, gram, date } => PurchaseLogEvent::Created {
                brand: brand.duplicate(),
                roast: *roast,
                gram: *gram,
                date: *date,
            },
        }
    }
}

#[derive(Debug)]
pub enum PurchaseLogCommand {
    Create { brand: Brand, roast: Roast, gram: Gram, date: Date },
}

#[derive(Debug, PartialEq, Eq, Structural)]
pub enum PurchaseLogCommandError {
    AlreadyCreated,
}

impl CommandError for PurchaseLogCommandError {

}

impl Command<PurchaseLogAggregate, PurchaseLogEvent> for PurchaseLogCommand {
    type Error = PurchaseLogCommandError;

    /// `Create` needs a log that was not recorded yet.
    open spec fn spec_execute_on(self, aggregate: PurchaseLogView) -> Result<
        Seq<PurchaseLogEvent>,
        PurchaseLogCommandError,
    > {
        match self {
            PurchaseLogCommand::Create { brand, roast, gram, date } => match aggregate {
                PurchaseLogView::Uninitialized => Ok(
                    seq![PurchaseLogEvent::Created { brand, roast, gram, date }],
                ),
                PurchaseLogView::Created { .. } => Err(PurchaseLogCommandError::AlreadyCreated),
            },
        }
    }

    fn execute_on(self, aggregate: &PurchaseLogAggregate) -> (r: Result<
        Vec<PurchaseLogEvent>,
        PurchaseLogCommandError,
    >) {
        match self {
            PurchaseLogCommand::Create { brand, roast, gram, date } => match aggregate {
                PurchaseLogAggregate::Uninitialized => {
                    let ghost e = PurchaseLogEvent::Created { brand, roast, gram, date };
                    let r = vec![PurchaseLogEvent::Created { brand, roast, gram, date }];
                    proof {
                        assert(r@ == seq![e]);
                    }
                    Ok(r)
                },
                PurchaseLogAggregate::Created { .. } => Err(PurchaseLogCommandError::AlreadyCreated),
            },
        }
    }
}

/// A read-model: the total weight of the purchases recorded, saturating at
/// the largest weight.
pub struct PurchaseLogProjector {
    sum_quantity: Gram,
    told: Ghost<nat>,
}

impl PurchaseLogProjector {
    pub fn new() -> (r: PurchaseLogProjector)
        ensures
            r.spec_sum_quantity().0 == 0,
            r.notified() == 0,
    {
        PurchaseLogProjector { sum_quantity: Gram(0), told: Ghost(0) }
    }

    pub closed spec fn spec_sum_quantity(&self) -> Gram {
        self.sum_quantity
    }

    /// The total weight so far.
    pub fn sum_quantity(&self) -> (r: Gram)
        ensures
            r == self.spec_sum_quantity(),
    {
        self.sum_quantity
    }
}

impl Projector<PurchaseLogAggregate> for PurchaseLogProjector {
    closed spec fn notified(&self) -> nat {
        self.told@
    }

    fn project(
        &mut self,
        id: Id<PurchaseLogAggregate>,
        event: &VersionedEvent<PurchaseLogAggregate>,
        aggregate: &VersionedAggregate<PurchaseLogAggregate>,
    )
        ensures
            ({
                let PurchaseLogEvent::Created { gram, .. } = event.event;
                let total = old(self).spec_sum_quantity().0 + gram.0;
                final(self).spec_sum_quantity().0 == if total > u32::MAX {
                    u32::MAX as int
                } else {
                    total
                }
            }),
    {
        match &event.event {
            PurchaseLogEvent::Created { gram, .. } => {
                let sum = self.sum_quantity.0;
                self.sum_quantity = if sum > u32::MAX - gram.0 {
                    Gram(u32::MAX)
                } else {
                    Gram(sum + gram.0)
                };
                self.told = Ghost(self.told@ + 1);
            },
        }
    }
}

} // verus!
