use std::cell::RefCell;
use std::rc::Rc;

use cqrs_es::coffee::canister_list::{
    Canister, CanisterId, CanisterListAggregate, CanisterListCommand, CanisterListCommandError,
    CanisterListEvent, Color, Name,
};
use cqrs_es::coffee::purchase_log::{
    Date, PurchaseLogAggregate, PurchaseLogCommand, PurchaseLogCommandError, PurchaseLogEvent,
    PurchaseLogProjector,
};
use cqrs_es::coffee::stock::{
    Pack, RemainingAmount, StockAggregate, StockCommand, StockCommandError, StockEvent,
};
use cqrs_es::coffee::{Brand, Gram, Roast};
use cqrs_es::store::{EventStorage, ExecuteCommandError, ReplayAggregateError};
use cqrs_es::{
    Aggregate, Command, Event, Id, OnMemoryEventStorage, Projector, Version, VersionedAggregate,
    VersionedEvent,
};

fn canister(id: u128, color: Color, name: Name) -> Canister {
    Canister {
        id: CanisterId(id),
        color,
        name,
    }
}

fn canisters_of(a: &CanisterListAggregate) -> Vec<Canister> {
    match a {
        CanisterListAggregate::Created { canisters } => canisters.clone(),
        CanisterListAggregate::Uninitialized => panic!("registry not created"),
    }
}

fn created_registry() -> (OnMemoryEventStorage<CanisterListAggregate>, Id<CanisterListAggregate>) {
    let mut storage = OnMemoryEventStorage::new();
    let id = Id::new();
    storage
        .execute_command(id, CanisterListCommand::Create)
        .unwrap();
    (storage, id)
}

#[test]
fn create_yields_one_created_event_then_already_created() {
    let mut storage = OnMemoryEventStorage::<CanisterListAggregate>::new();
    let id = Id::new();
    assert_eq!(storage.execute_command(id, CanisterListCommand::Create), Ok(()));
    let events = storage.read(id).unwrap();
    assert_eq!(events.len(), 1);
    assert_eq!(events[0].version, Version(1));
    assert!(matches!(events[0].event, CanisterListEvent::Created));

    let again = storage.execute_command(id, CanisterListCommand::Create);
    assert_eq!(
        again,
        Err(ExecuteCommandError::Command(CanisterListCommandError::AlreadyCreated))
    );
    assert_eq!(storage.read(id).unwrap().len(), 1);
}

#[test]
fn duplicate_canister_id_is_rejected_and_not_recorded() {
    let (mut storage, id) = created_registry();
    let first = canister(1, Color::Blue, Name::Matsubara);
    let second = canister(1, Color::Red, Name::Makabe);
    assert_eq!(
        storage.execute_command(id, CanisterListCommand::AddCanister(first)),
        Ok(())
    );
    assert_eq!(
        storage.execute_command(id, CanisterListCommand::AddCanister(second)),
        Err(ExecuteCommandError::Command(CanisterListCommandError::IdDuplicated))
    );
    let events = storage.read(id).unwrap();
    assert_eq!(events.len(), 2);
    let added: Vec<_> = events
        .iter()
        .filter(|e| matches!(e.event, CanisterListEvent::CanisterAdded(_)))
        .collect();
    assert_eq!(added.len(), 1);
    let replayed = storage.replay_aggregate(id).ok().unwrap();
    assert_eq!(replayed.version, Version(2));
    assert_eq!(canisters_of(&replayed.aggregate), vec![first]);
}

#[test]
fn duplicate_color_and_name_are_rejected() {
    let (mut storage, id) = created_registry();
    let first = canister(1, Color::Blue, Name::Matsubara);
    storage
        .execute_command(id, CanisterListCommand::AddCanister(first))
        .unwrap();
    assert_eq!(
        storage.execute_command(
            id,
            CanisterListCommand::AddCanister(canister(2, Color::Blue, Name::Makabe))
        ),
        Err(ExecuteCommandError::Command(CanisterListCommandError::ColorDuplicated))
    );
    assert_eq!(
        storage.execute_command(
            id,
            CanisterListCommand::AddCanister(canister(2, Color::Red, Name::Matsubara))
        ),
        Err(ExecuteCommandError::Command(CanisterListCommandError::NameDuplicated))
    );
    assert_eq!(
        storage.execute_command(
            id,
            CanisterListCommand::AddCanister(canister(1, Color::Blue, Name::Matsubara))
        ),
        Err(ExecuteCommandError::Command(CanisterListCommandError::IdDuplicated))
    );
    assert_eq!(storage.read(id).unwrap().len(), 2);
}

#[test]
fn adding_to_uninitialized_registry_fails_without_insert() {
    let mut storage = OnMemoryEventStorage::<CanisterListAggregate>::new();
    let id = Id::new();
    let got = storage.execute_command(
        id,
        CanisterListCommand::AddCanister(canister(1, Color::Green, Name::Manchose)),
    );
    assert_eq!(
        got,
        Err(ExecuteCommandError::Command(CanisterListCommandError::Uninitialized))
    );
    assert!(storage.read(id).unwrap().is_empty());
}

#[test]
fn replay_of_unknown_id_is_default() {
    let storage = OnMemoryEventStorage::<CanisterListAggregate>::new();
    let got = storage.replay_aggregate(Id::new()).ok().unwrap();
    assert_eq!(got.version, Version(0));
    assert!(matches!(got.aggregate, CanisterListAggregate::Uninitialized));
}

#[test]
fn replay_after_execute_reflects_new_events() {
    let (mut storage, id) = created_registry();
    let before = storage.replay_aggregate(id).ok().unwrap();
    assert_eq!(before.version, Version(1));
    let a = canister(10, Color::Blue, Name::Matsubara);
    let b = canister(11, Color::Green, Name::Matsumoto);
    storage
        .execute_command(id, CanisterListCommand::AddCanister(a))
        .unwrap();
    storage
        .execute_command(id, CanisterListCommand::AddCanister(b))
        .unwrap();
    let after = storage.replay_aggregate(id).ok().unwrap();
    assert_eq!(after.version, Version(3));
    assert_eq!(canisters_of(&after.aggregate), vec![a, b]);
    let versions: Vec<u64> = storage.read(id).unwrap().iter().map(|e| e.version.0).collect();
    assert_eq!(versions, vec![1, 2, 3]);
}

#[test]
fn replay_of_inconsistent_stream_fails() {
    let mut storage = OnMemoryEventStorage::<CanisterListAggregate>::new();
    let id = Id::new();
    for v in [1u64, 3] {
        storage
            .insert(
                id,
                VersionedEvent {
                    version: Version(v),
                    event: CanisterListEvent::Created,
                },
            )
            .unwrap();
    }
    assert!(matches!(
        storage.replay_aggregate(id),
        Err(ReplayAggregateError::VersionInconsistent)
    ));
    assert!(matches!(
        storage.execute_command(id, CanisterListCommand::Create),
        Err(ExecuteCommandError::ReplayAggregate(
            ReplayAggregateError::VersionInconsistent
        ))
    ));
    assert_eq!(storage.read(id).unwrap().len(), 2);
}

#[test]
fn read_is_repeatable_and_streams_are_separate() {
    let (mut storage, id) = created_registry();
    let other = Id::new();
    let first: Vec<u64> = storage.read(id).unwrap().iter().map(|e| e.version.0).collect();
    let second: Vec<u64> = storage.read(id).unwrap().iter().map(|e| e.version.0).collect();
    assert_eq!(first, second);
    storage
        .execute_command(other, CanisterListCommand::Create)
        .unwrap();
    let third: Vec<u64> = storage.read(id).unwrap().iter().map(|e| e.version.0).collect();
    assert_eq!(first, third);
    assert_eq!(storage.read(other).unwrap().len(), 1);
}

struct Recorder {
    seen: Rc<RefCell<Vec<(u64, usize)>>>,
}

impl Projector<CanisterListAggregate> for Recorder {
    fn project(
        &mut self,
        _id: Id<CanisterListAggregate>,
        event: &VersionedEvent<CanisterListAggregate>,
        aggregate: &VersionedAggregate<CanisterListAggregate>,
    ) {
        let n = match &aggregate.aggregate {
            CanisterListAggregate::Created { canisters } => canisters.len(),
            CanisterListAggregate::Uninitialized => usize::MAX,
        };
        self.seen.borrow_mut().push((event.version.0, n));
    }
}

#[test]
fn projectors_see_each_recorded_event_in_order() {
    let seen = Rc::new(RefCell::new(Vec::new()));
    let mut storage = OnMemoryEventStorage::<CanisterListAggregate>::new();
    storage.add_projector(Recorder { seen: seen.clone() });
    storage.add_projector(Recorder { seen: seen.clone() });
    let id = Id::new();
    storage
        .execute_command(id, CanisterListCommand::Create)
        .unwrap();
    storage
        .execute_command(
            id,
            CanisterListCommand::AddCanister(canister(5, Color::Purple, Name::Makabe)),
        )
        .unwrap();
    let _ = storage.execute_command(id, CanisterListCommand::Create);
    assert_eq!(*seen.borrow(), vec![(1, 0), (1, 0), (2, 1), (2, 1)]);
}

#[test]
fn color_and_name_words() {
    assert_eq!(Color::from_str("blue"), Ok(Color::Blue));
    assert_eq!(Color::from_str("green"), Ok(Color::Green));
    assert_eq!(Color::from_str("red"), Ok(Color::Red));
    assert_eq!(Color::from_str("purple"), Ok(Color::Purple));
    assert!(Color::from_str("Blue").is_err());
    assert_eq!(Name::from_str("matsubara"), Ok(Name::Matsubara));
    assert_eq!(Name::from_str("matsumoto"), Ok(Name::Matsumoto));
    assert_eq!(Name::from_str("manchose"), Ok(Name::Manchose));
    assert_eq!(Name::from_str("makabe"), Ok(Name::Makabe));
    assert!(Name::from_str("").is_err());
}

#[test]
fn aggregate_names() {
    assert_eq!(CanisterListAggregate::aggregate_name(), "canister_list");
    assert_eq!(StockAggregate::aggregate_name(), "seller/stock");
    assert_eq!(PurchaseLogAggregate::aggregate_name(), "seller/purchase_log");
}

fn brand(s: &str) -> Brand {
    Brand(s.to_string())
}

fn packs_of(a: &StockAggregate) -> Vec<(String, u8, RemainingAmount)> {
    match a {
        StockAggregate::Created { packs } => packs
            .iter()
            .map(|p| (p.brand.0.clone(), p.roast.0, p.remaining_amount))
            .collect(),
        StockAggregate::Uninitialized => panic!("stock not created"),
    }
}

#[test]
fn stock_purchase_use_and_remove() {
    let mut storage = OnMemoryEventStorage::<StockAggregate>::new();
    let id = Id::new();
    storage.execute_command(id, StockCommand::Create).unwrap();
    storage
        .execute_command(id, StockCommand::Purchase { brand: brand("kona"), roast: Roast(3) })
        .unwrap();
    storage
        .execute_command(id, StockCommand::Purchase { brand: brand("mocha"), roast: Roast(2) })
        .unwrap();
    storage
        .execute_command(
            id,
            StockCommand::Use { brand: brand("kona"), roast: Roast(3), all: false },
        )
        .unwrap();
    let got = storage.replay_aggregate(id).ok().unwrap();
    assert_eq!(got.version, Version(4));
    assert_eq!(
        packs_of(&got.aggregate),
        vec![
            ("kona".to_string(), 3, RemainingAmount::LtFillingCanister),
            ("mocha".to_string(), 2, RemainingAmount::GteFillingCanister),
        ]
    );
    storage
        .execute_command(id, StockCommand::Purchase { brand: brand("kona"), roast: Roast(3) })
        .unwrap();
    storage
        .execute_command(
            id,
            StockCommand::Use { brand: brand("mocha"), roast: Roast(2), all: true },
        )
        .unwrap();
    let got = storage.replay_aggregate(id).ok().unwrap();
    assert_eq!(
        packs_of(&got.aggregate),
        vec![("kona".to_string(), 3, RemainingAmount::GteFillingCanister)]
    );
}

#[test]
fn stock_command_errors() {
    let uninit = StockAggregate::Uninitialized;
    assert!(matches!(
        StockCommand::Purchase { brand: brand("x"), roast: Roast(1) }.execute_on(&uninit),
        Err(StockCommandError::Uninitialized)
    ));
    assert!(matches!(
        StockCommand::Use { brand: brand("x"), roast: Roast(1), all: true }.execute_on(&uninit),
        Err(StockCommandError::Uninitialized)
    ));
    let created = StockAggregate::Created {
        packs: vec![Pack {
            brand: brand("x"),
            roast: Roast(1),
            remaining_amount: RemainingAmount::GteFillingCanister,
        }],
    };
    assert!(matches!(StockCommand::Create.execute_on(&created), Err(StockCommandError::AlreadyCreated)));
    match (StockCommand::Use { brand: brand("x"), roast: Roast(2), all: false }).execute_on(&created) {
        Err(StockCommandError::NotInStock { brand, roast }) => {
            assert_eq!(brand, Brand("x".to_string()));
            assert_eq!(roast, Roast(2));
        }
        _ => panic!(),
    }
    match (StockCommand::Use { brand: brand("x"), roast: Roast(1), all: false }).execute_on(&created) {
        Ok(events) => {
            assert_eq!(events.len(), 1);
            assert!(matches!(&events[0], StockEvent::Decreased { roast: Roast(1), .. }));
        }
        _ => panic!(),
    }
}

#[test]
fn stock_events_on_uninitialized_are_ignored() {
    let mut a = StockAggregate::Uninitialized;
    StockEvent::Purchased { brand: brand("x"), roast: Roast(1) }.apply_to(&mut a);
    assert!(matches!(a, StockAggregate::Uninitialized));
    let pack = Pack {
        brand: brand("x"),
        roast: Roast(1),
        remaining_amount: RemainingAmount::GteFillingCanister,
    };
    assert!(pack.is_same_bean(&brand("x"), &Roast(1)));
    assert!(!pack.is_same_bean(&brand("x"), &Roast(2)));
    assert!(!pack.is_same_bean(&brand("y"), &Roast(1)));
}

#[test]
fn purchase_log_is_created_once() {
    let mut storage = OnMemoryEventStorage::<PurchaseLogAggregate>::new();
    let id = Id::new();
    let date = Date { year: 2019, month: 11, day: 3 };
    let create = || PurchaseLogCommand::Create {
        brand: brand("kona"),
        roast: Roast(4),
        gram: Gram(200),
        date,
    };
    assert_eq!(storage.execute_command(id, create()), Ok(()));
    assert_eq!(
        storage.execute_command(id, create()),
        Err(ExecuteCommandError::Command(PurchaseLogCommandError::AlreadyCreated))
    );
    let got = storage.replay_aggregate(id).ok().unwrap();
    assert_eq!(got.version, Version(1));
    match got.aggregate {
        PurchaseLogAggregate::Created { brand, roast, gram, date: d } => {
            assert_eq!(brand, Brand("kona".to_string()));
            assert_eq!(roast, Roast(4));
            assert_eq!(gram, Gram(200));
            assert_eq!(d, date);
        }
        PurchaseLogAggregate::Uninitialized => panic!(),
    }
    let mut a = PurchaseLogAggregate::default();
    PurchaseLogEvent::Created { brand: brand("b"), roast: Roast(1), gram: Gram(5), date }
        .apply_to(&mut a);
    assert!(matches!(a, PurchaseLogAggregate::Created { gram: Gram(5), .. }));
}

#[test]
fn purchase_log_projector_sums_grams() {
    let mut projector = PurchaseLogProjector::new();
    let id = Id::new();
    let date = Date { year: 2020, month: 1, day: 31 };
    let snapshot = VersionedAggregate {
        version: Version(1),
        aggregate: PurchaseLogAggregate::Uninitialized,
    };
    for g in [200u32, 150] {
        let event = VersionedEvent {
            version: Version(1),
            event: PurchaseLogEvent::Created { brand: brand("k"), roast: Roast(1), gram: Gram(g), date },
        };
        projector.project(id, &event, &snapshot);
    }
    assert_eq!(projector.sum_quantity(), Gram(350));
    let big = VersionedEvent {
        version: Version(1),
        event: PurchaseLogEvent::Created { brand: brand("k"), roast: Roast(1), gram: Gram(u32::MAX), date },
    };
    projector.project(id, &big, &snapshot);
    assert_eq!(projector.sum_quantity(), Gram(u32::MAX));
}

#[test]
fn stock_commands_on_uncreated_stock_record_nothing() {
    let mut storage = OnMemoryEventStorage::<StockAggregate>::new();
    let id = Id::new();
    let got = storage.execute_command(id, StockCommand::Purchase { brand: brand("x"), roast: Roast(1) });
    assert!(matches!(got, Err(ExecuteCommandError::Command(StockCommandError::Uninitialized))));
    let got = storage.execute_command(
        id,
        StockCommand::Use { brand: brand("x"), roast: Roast(1), all: false },
    );
    assert!(matches!(got, Err(ExecuteCommandError::Command(StockCommandError::Uninitialized))));
    assert!(storage.read(id).unwrap().is_empty());
}
