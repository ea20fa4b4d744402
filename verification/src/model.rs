//! What the statements of the cache mean to its tables.
//!
//! The tables are mathematical maps, and a statement is a relation between the
//! tables before and after it and the answer that it gets. A statement that fails
//! leaves the tables as they were; a statement on a table that is not there fails.

use vstd::prelude::*;

use crate::cell::CellView;
use crate::command::CommandView;
use crate::protocol::{ReplyView, RequestView};
use crate::tables::{Evicted, SCHEMA_VERSION};

verus! {

/// The columns that only view payloads have.
pub struct ViewColumns {
    pub etag: Option<Seq<char>>,
    pub updated_at: i64,
}

/// A row of a cached table, without its key.
pub struct CachedRow {
    pub rowid: i64,
    pub data: Seq<u8>,
    pub bytes: i64,
    pub accessed_at: i64,
    /// Nothing in the image table.
    pub view: Option<ViewColumns>,
}

/// A cached table, by primary key.
pub type Cache = Map<Seq<char>, CachedRow>;

/// A row of the play history, without its track id.
pub struct Played {
    pub played_at: i64,
    pub entry: Seq<u8>,
}

/// The play history, by track id.
pub type History = Map<Seq<char>, Played>;

/// The database. A table that is not there is `None`.
#[verifier::ext_equal]
pub struct Store {
    pub version: i64,
    pub view_cache: Option<Cache>,
    pub image: Option<Cache>,
    pub history: Option<History>,
}

impl Store {
    /// A cached table, if it is there.
    pub open spec fn cached(self, table: Evicted) -> Option<Cache> {
        match table {
            Evicted::ViewCache => self.view_cache,
            Evicted::Image => self.image,
        }
    }

    /// The rows of a cached table that is there.
    pub open spec fn rows(self, table: Evicted) -> Cache {
        self.cached(table)->0
    }

    /// The database with a cached table replaced.
    pub open spec fn with_cached(self, table: Evicted, cache: Option<Cache>) -> Store {
        match table {
            Evicted::ViewCache => Store { view_cache: cache, ..self },
            Evicted::Image => Store { image: cache, ..self },
        }
    }

    /// The database with the rows of a cached table replaced.
    pub open spec fn with_rows(self, table: Evicted, rows: Cache) -> Store {
        self.with_cached(table, Some(rows))
    }

    /// Whether every table is there.
    pub open spec fn ready(self) -> bool {
        &&& self.view_cache is Some
        &&& self.image is Some
        &&& self.history is Some
    }

    /// Whether every table is there and the cached ones are sound.
    pub open spec fn sound(self) -> bool {
        &&& self.ready()
        &&& sound(self.view_cache->0)
        &&& sound(self.image->0)
    }
}

/// Whether a table holds what this library writes: finitely many rows, told apart by
/// their ids, each with the size of its blob.
pub open spec fn sound(cache: Cache) -> bool {
    &&& cache.dom().finite()
    &&& forall|key: Seq<char>| #[trigger]
        cache.contains_key(key) ==> cache[key].bytes == cache[key].data.len()
    &&& forall|a: Seq<char>, b: Seq<char>| #[trigger]
        cache.contains_key(a) && #[trigger] cache.contains_key(b) && cache[a].rowid
            == cache[b].rowid ==> a == b
}

/// `SUM(bytes)` of a table.
pub open spec fn total_bytes(cache: Cache) -> int
    decreases cache.dom().len(),
{
    if cache.dom().finite() && cache.dom().len() > 0 {
        let key = cache.dom().choose();
        cache[key].bytes + total_bytes(cache.remove(key))
    } else {
        0
    }
}

/// The size of the row stored under `key`, or 0 if there is none.
pub open spec fn bytes_at(cache: Cache, key: Seq<char>) -> int {
    if cache.contains_key(key) {
        cache[key].bytes as int
    } else {
        0
    }
}

/// Whether no row of the table was accessed before the one under `key`.
pub open spec fn is_oldest(cache: Cache, key: Seq<char>) -> bool {
    &&& cache.contains_key(key)
    &&& forall|other: Seq<char>| #[trigger]
        cache.contains_key(other) ==> cache[key].accessed_at <= cache[other].accessed_at
}

/// Whether a row stored under `key` can have the id `rowid`: a row that is replaced
/// keeps its id, and a new row gets one that no row has.
pub open spec fn may_get_rowid(cache: Cache, key: Seq<char>, rowid: i64) -> bool {
    if cache.contains_key(key) {
        rowid == cache[key].rowid
    } else {
        forall|other: Seq<char>| #[trigger]
            cache.contains_key(other) ==> cache[other].rowid != rowid
    }
}

/// The row that a write of `data` leaves.
pub open spec fn stored_row(
    table: Evicted,
    rowid: i64,
    data: Seq<u8>,
    etag: Option<Seq<char>>,
    now: i64,
) -> CachedRow {
    CachedRow {
        rowid,
        data,
        bytes: data.len() as i64,
        accessed_at: now,
        view: match table {
            Evicted::ViewCache => Some(ViewColumns { etag, updated_at: now }),
            Evicted::Image => None,
        },
    }
}

/// Whether a query gets this answer.
pub open spec fn yields(store: Store, command: CommandView, reply: ReplyView) -> bool {
    match command {
        CommandView::ReadVersion => reply == ReplyView::Row(seq![CellView::Integer(store.version)]),
        CommandView::Select { table, key } => {
            &&& store.cached(table) is Some
            &&& reply == if store.rows(table).contains_key(key) {
                ReplyView::Row(seq![CellView::Blob(store.rows(table)[key].data)])
            } else {
                ReplyView::NoRow
            }
        },
        CommandView::RowBytes { table, key } => {
            &&& store.cached(table) is Some
            &&& reply == if store.rows(table).contains_key(key) {
                ReplyView::Row(seq![CellView::Integer(store.rows(table)[key].bytes)])
            } else {
                ReplyView::NoRow
            }
        },
        CommandView::SumBytes { table } => {
            &&& store.cached(table) is Some
            &&& i64::MIN <= total_bytes(store.rows(table)) <= i64::MAX
            &&& reply == ReplyView::Row(
                seq![CellView::Integer(total_bytes(store.rows(table)) as i64)],
            )
        },
        CommandView::OldestRow { table } => {
            &&& store.cached(table) is Some
            &&& if store.rows(table).dom().is_empty() {
                reply == ReplyView::NoRow
            } else {
                exists|key: Seq<char>| #[trigger]
                    is_oldest(store.rows(table), key) && reply == ReplyView::Row(
                        seq![
                            CellView::Integer(store.rows(table)[key].rowid),
                            CellView::Integer(store.rows(table)[key].bytes),
                        ],
                    )
            }
        },
        CommandView::SelectHistory => {
            &&& store.history is Some
            &&& exists|order: Seq<Seq<char>>| #[trigger]
                lists_history(store.history->0, order) && reply == scan_replies(
                    store.history->0,
                    order,
                )[0]
        },
        _ => false,
    }
}

/// Whether a further row of a query can be this answer. The history is the only thing
/// that is gone through row by row.
pub open spec fn continues(store: Store, reply: ReplyView) -> bool {
    &&& store.history is Some
    &&& reply is NoRow || exists|track: Seq<char>| #[trigger]
        store.history->0.contains_key(track) && reply == ReplyView::Row(
            seq![CellView::Blob(store.history->0[track].entry)],
        )
}

/// Whether a statement changes `count` rows and leaves the database as `after`.
pub open spec fn effects(before: Store, command: CommandView, count: u64, after: Store) -> bool {
    match command {
        CommandView::DropTable { table } => after == before.with_cached(table, None),
        CommandView::CreateTable { table } => after == if before.cached(table) is Some {
            before
        } else {
            before.with_rows(table, Map::empty())
        },
        CommandView::IndexTable { table } => before.cached(table) is Some && after == before,
        CommandView::CreateHistory => after == if before.history is Some {
            before
        } else {
            Store { history: Some(Map::empty()), ..before }
        },
        CommandView::IndexHistory => before.history is Some && after == before,
        CommandView::StampVersion => after == Store { version: SCHEMA_VERSION, ..before },
        CommandView::Touch { table, key, now } => {
            &&& before.cached(table) is Some
            &&& if before.rows(table).contains_key(key) {
                &&& count == 1
                &&& after == before.with_rows(
                    table,
                    before.rows(table).insert(
                        key,
                        CachedRow { accessed_at: now, ..before.rows(table)[key] },
                    ),
                )
            } else {
                &&& count == 0
                &&& after == before
            }
        },
        CommandView::Put { table, key, data, etag, now } => {
            &&& before.cached(table) is Some
            &&& exists|rowid: i64| #[trigger]
                may_get_rowid(before.rows(table), key, rowid) && after == before.with_rows(
                    table,
                    before.rows(table).insert(key, stored_row(table, rowid, data, etag, now)),
                )
        },
        CommandView::DeleteRow { table, rowid } => {
            &&& before.cached(table) is Some
            &&& {
                ||| exists|key: Seq<char>|
                    {
                        &&& #[trigger] before.rows(table).contains_key(key)
                        &&& before.rows(table)[key].rowid == rowid
                        &&& count == 1
                        &&& after == before.with_rows(table, before.rows(table).remove(key))
                    }
                ||| {
                    &&& forall|key: Seq<char>| #[trigger]
                        before.rows(table).contains_key(key) ==> before.rows(table)[key].rowid
                            != rowid
                    &&& count == 0
                    &&& after == before
                }
            }
        },
        CommandView::PutHistory { track_id, played_at, entry } => {
            &&& before.history is Some
            &&& after == Store {
                history: Some(before.history->0.insert(track_id, Played { played_at, entry })),
                ..before
            }
        },
        CommandView::ClearHistory => {
            &&& before.history is Some
            &&& after == Store { history: Some(Map::empty()), ..before }
        },
        _ => false,
    }
}

/// Whether a request gets this answer and leaves the database as `after`.
pub open spec fn answers(
    before: Store,
    request: RequestView,
    reply: ReplyView,
    after: Store,
) -> bool {
    if reply is Failed {
        after == before
    } else {
        match request {
            RequestView::Query(command) => yields(before, command, reply) && after == before,
            RequestView::Execute(command) => reply matches ReplyView::Count(count) && effects(
                before,
                command,
                count,
                after,
            ),
            RequestView::NextRow => continues(before, reply) && after == before,
        }
    }
}

/// Whether `order` lists the tracks of the play history as `ORDER BY played_at DESC`
/// may: every track once, none before one that was played later.
pub open spec fn lists_history(history: History, order: Seq<Seq<char>>) -> bool {
    &&& order.no_duplicates()
    &&& order.to_set() == history.dom()
    &&& forall|i: int, j: int|
        0 <= i < j < order.len() ==> history[#[trigger] order[i]].played_at
            >= history[#[trigger] order[j]].played_at
}

/// The answers that a scan of the play history gets, row by row, in the order `order`.
pub open spec fn scan_replies(history: History, order: Seq<Seq<char>>) -> Seq<ReplyView> {
    order.map_values(
        |track: Seq<char>| ReplyView::Row(seq![CellView::Blob(history[track].entry)]),
    ).push(ReplyView::NoRow)
}

} // verus!
