//! Tracks which entity's despawn a reactor is currently reacting to.
//!
//! A despawn schedules a reactor and registers a prepared entry with the
//! [`DespawnAccessTracker`]. When the scheduler starts that reactor the entry
//! becomes the running reaction, which the reactor reads through a
//! [`DespawnEvent`]. When the reactor returns the running reaction ends and
//! its handle is dropped.
//!
//! Every operation is stated over [`TrackerView`], the tracker as a
//! mathematical value. [`laws`] proves what holds of every sequence of
//! operations.

pub mod entity;
pub mod error;
pub mod event;
pub mod laws;
pub mod state;
pub mod tracker;

pub use entity::EntityId;
pub use entity::ReactorId;
pub use error::NotReactingError;
pub use event::DespawnEvent;
pub use state::PreparedEntry;
pub use state::TrackerView;
pub use tracker::DespawnAccessTracker;
