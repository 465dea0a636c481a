//! An event-sourcing kernel: domain state is a fold over an ordered,
//! versioned log of immutable events, and commands become new log entries.
pub use vstd::view::View;

pub mod aggregate;
pub mod coffee;
pub mod id;
pub mod onmemory;
pub mod projector;
pub mod record;
pub mod store;
pub mod version;

pub use aggregate::{Aggregate, Command, CommandError, Event};
pub use id::Id;
pub use onmemory::{OnMemoryEventStorage, OnMemoryEventStorageError};
pub use projector::Projector;
pub use store::{EventStorage, EventStorageError, ExecuteCommandError, ReplayAggregateError};
pub use version::{Version, VersionedAggregate, VersionedEvent};
