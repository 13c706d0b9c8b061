//! Decision core of a tick-driven agent that gathers resources, produces an
//! army and researches upgrades against an opponent.
//!
//! Once a tick the host shows the core a [`snapshot::Snapshot`] of the world
//! and gets back plain commands. The core holds four parts:
//!
//! - the threat tracker ([`surveillance`], with its model in [`threat`]):
//!   which enemy units are believed alive and what supply they sum to;
//! - the build scheduler ([`build_scheduler`]): a priority for each thing
//!   that can be produced, re-weighted by how the two armies compare;
//! - the worker allocator ([`workers`], [`selection`], with what holds of
//!   every pass in [`worker_proofs`]): which harvester goes where;
//! - the upgrade resolver ([`upgrades`], [`prereqs`]): which research
//!   starts.
//!
//! Beside them stand the count tests of production and attack
//! ([`production`]) and of what can be paid ([`helpers`]).
//!
//! Positions are integers on a grid, supply is counted in halves of a point:
//! the core computes without rounding.

pub mod build_scheduler;
pub mod costs;
pub mod flourish_bot;
pub mod helpers;
pub mod kinds;
pub mod prereqs;
pub mod production;
pub mod queue;
pub mod selection;
pub mod snapshot;
pub mod surveillance;
pub mod threat;
pub mod upgrades;
pub mod worker_proofs;
pub mod workers;
