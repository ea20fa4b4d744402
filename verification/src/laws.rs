//! What holds of the cache as a whole: of every operation, run to its end on a
//! database that understands the statements as [`crate::model`] says.

pub mod budget;
pub mod history;
pub mod reads;
pub mod schema;
pub mod statements;
pub mod steps;
pub mod sums;
pub mod views;
