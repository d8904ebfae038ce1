//! An in-memory ticket store with two concurrency disciplines.
//!
//! The heart of the crate is the sequential ticket store, which maps ticket
//! identifiers to tickets and carries the full functional contracts:
//! identifier allocation, lookup, and sparse patching. Around it stand two
//! access disciplines: an actor discipline, where a single worker owns the
//! store and applies commands in arrival order, and a shared-lock
//! discipline, where the store sits behind a reader-writer lock and every
//! ticket behind a further lock of its own.

pub mod actor;
pub mod channel;
pub mod client;
pub mod data;
pub mod description;
pub mod droptracker;
pub mod items;
pub mod order;
pub mod saturating;
pub mod shared;
pub mod store;
pub mod sum;
pub mod title;
