//! The tables that are kept under a byte budget.

use vstd::prelude::*;

verus! {

/// Bump to invalidate (drop and recreate) all cached tables.
pub const SCHEMA_VERSION: i64 = 1;

/// A cache table kept under a byte budget by evicting its
/// least-recently-accessed rows. (The play history has no budget: it is the one
/// table that is not disposable.)
#[derive(Clone, Copy, Debug, PartialEq, Eq, Structural)]
pub enum Evicted {
    Image,
    ViewCache,
}

impl Evicted {
    /// The name of the table in SQL.
    pub open spec fn name(self) -> Seq<char> {
        match self {
            Evicted::Image => "image"@,
            Evicted::ViewCache => "view_cache"@,
        }
    }

    /// The name of the primary-key column.
    pub open spec fn key_name(self) -> Seq<char> {
        match self {
            Evicted::Image => "url"@,
            Evicted::ViewCache => "key"@,
        }
    }

    /// The cached table that is not this one.
    pub open spec fn other(self) -> Evicted {
        match self {
            Evicted::Image => Evicted::ViewCache,
            Evicted::ViewCache => Evicted::Image,
        }
    }

    /// SQL table name.
    pub fn table(self) -> (name: &'static str)
        ensures
            name@ == self.name(),
    {
        match self {
            Evicted::Image => "image",
            Evicted::ViewCache => "view_cache",
        }
    }

    /// Primary-key column, used to size the row a write replaces.
    pub fn key_column(self) -> (name: &'static str)
        ensures
            name@ == self.key_name(),
    {
        match self {
            Evicted::Image => "url",
            Evicted::ViewCache => "key",
        }
    }
}

} // verus!
