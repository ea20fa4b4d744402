//! Live byte totals of the evicted tables.

use vstd::prelude::*;

use crate::tables::Evicted;

verus! {

/// Sentinel for "this table's live byte total hasn't been measured yet".
pub const UNKNOWN_TOTAL: i64 = -1;

/// Live `SUM(bytes)` of each evicted table, maintained in memory so the byte
/// budget can be enforced without scanning the table on every write.
///
/// Both totals start at [`UNKNOWN_TOTAL`] and are measured once, on the first write
/// of the session that has a budget; from there every write is folded in.
#[derive(Clone, Copy, Debug, PartialEq, Eq, Structural)]
pub struct Totals {
    pub image: i64,
    pub view_cache: i64,
}

impl Totals {
    /// The total kept for `table`.
    pub open spec fn of(self, table: Evicted) -> i64 {
        match table {
            Evicted::Image => self.image,
            Evicted::ViewCache => self.view_cache,
        }
    }

    /// These totals with that of `table` replaced.
    pub open spec fn with(self, table: Evicted, total: i64) -> Totals {
        match table {
            Evicted::Image => Totals { image: total, ..self },
            Evicted::ViewCache => Totals { view_cache: total, ..self },
        }
    }

    /// Totals of a session that has measured nothing yet.
    pub open spec fn unknown() -> Totals {
        Totals { image: UNKNOWN_TOTAL, view_cache: UNKNOWN_TOTAL }
    }

    /// Totals of a session that has measured nothing yet.
    pub fn new() -> (totals: Totals)
        ensures
            totals == Totals::unknown(),
    {
        Totals { image: UNKNOWN_TOTAL, view_cache: UNKNOWN_TOTAL }
    }

    /// The total kept for `table`.
    pub fn cell(&self, table: Evicted) -> (total: &i64)
        ensures
            *total == self.of(table),
    {
        match table {
            Evicted::Image => &self.image,
            Evicted::ViewCache => &self.view_cache,
        }
    }

    /// Replaces the total kept for `table`.
    pub fn store(&mut self, table: Evicted, total: i64)
        ensures
            *final(self) == old(self).with(table, total),
    {
        match table {
            Evicted::Image => self.image = total,
            Evicted::ViewCache => self.view_cache = total,
        }
    }
}

} // verus!
