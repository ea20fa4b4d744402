//! The decision-making core of a cache database.
//!
//! One embedded SQL database backs three things:
//!
//! * the **view-state cache**: the last-seen row model of each view;
//! * the **image cache**: artwork blobs;
//! * the **play history**: one row per played track, deduplicated by track id
//!   and ordered by play time. It is the only table that is not disposable.
//!
//! Nothing here talks to the database. Every operation on it is a small state
//! machine: it says which SQL statement it wants next ([`protocol::Request`]),
//! is fed what the database answered ([`protocol::Reply`]), and goes on from
//! there until it wants nothing more. A driver that owns the connection performs
//! the requests; all requests of one operation are performed before the first of
//! the next.
//!
//! [`model`] states what the statements mean to the tables, and [`laws`] and its
//! submodules prove what follows for the cache as a whole.

pub mod cell;
pub mod clock;
pub mod command;
pub mod db;
pub mod fetch;
pub mod history;
pub mod laws;
pub mod model;
pub mod open;
pub mod protocol;
pub mod put;
pub mod tables;
pub mod totals;
