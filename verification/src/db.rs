//! The handle to the cache database.

use std::path::Path;
use std::time::SystemTime;

use vstd::prelude::*;

use crate::clock::{now_secs, seconds_at, timestamp_of};
use crate::command::{text_view, Command, CommandView};
use crate::fetch::{Fetch, FetchView};
use crate::history::{HistoryScan, HistoryScanView};
use crate::open::{database_name, path_text, OpenPhase, OpenPhaseView, Opening};
use crate::put::{Phase, Put, PutView};
use crate::tables::Evicted;
use crate::totals::Totals;

verus! {

/// A cache database that was opened: what the session knows of its tables. Its
/// methods begin the operations on it.
#[derive(Debug, PartialEq, Eq, Structural)]
pub struct Db {
    pub totals: Totals,
}

impl Db {
    /// Open (or create) the cache database at `path`. A path that is not valid
    /// Unicode opens an ephemeral database, as `:memory:` does.
    ///
    /// On a schema version mismatch the cached tables are dropped and recreated.
    /// Once the opening wants nothing more, [`Db::opened`] gives the handle.
    pub fn open(path: &Path) -> (opening: Opening)
        ensures
            opening.name@ == database_name(path_text(path)),
            path_text(path) matches Some(text) ==> opening.name@ == text,
            path_text(path) is None ==> opening.name@ == ":memory:"@,
            opening.phase@ == OpenPhaseView::Reading,
    {
        Opening::new(path)
    }

    /// The handle, once the database is ready. No table was measured yet.
    pub fn opened(opening: &Opening) -> (db: Option<Db>)
        ensures
            db == if opening.phase@ is Ready {
                Some(Db { totals: Totals::unknown() })
            } else {
                None
            },
    {
        match opening.phase {
            OpenPhase::Ready => Some(Db { totals: Totals::new() }),
            _ => None,
        }
    }

    /// Fetch a cached view payload by key, bumping its LRU timestamp.
    pub fn get_view<'a>(&self, key: &'a str) -> (fetch: Fetch<'a>)
        ensures
            fetch@ == FetchView::fresh(Evicted::ViewCache, key@),
    {
        Fetch::new(Evicted::ViewCache, key)
    }

    /// Upsert a view payload, then evict oldest entries past `budget_bytes`. The row
    /// is stamped with the time that the clock shows now.
    pub fn put_view<'a>(
        &self,
        key: &'a str,
        payload: &'a [u8],
        etag: Option<&'a str>,
        budget_bytes: i64,
    ) -> (put: Put<'a>)
        ensures
            exists|time: SystemTime|
                put@.now == timestamp_of(#[trigger] seconds_at(time)),
            put@ == (PutView {
                table: Evicted::ViewCache,
                key: key@,
                data: payload@,
                etag: text_view(etag),
                budget_bytes,
                now: put@.now,
                phase: Phase::Sizing,
            }),
    {
        let now: i64 = now_secs();
        Put::view_at(key, payload, etag, budget_bytes, now)
    }

    /// Fetch a cached image by URL, bumping its LRU timestamp.
    pub fn get_image<'a>(&self, url: &'a str) -> (fetch: Fetch<'a>)
        ensures
            fetch@ == FetchView::fresh(Evicted::Image, url@),
    {
        Fetch::new(Evicted::Image, url)
    }

    /// Upsert an image blob, then evict oldest entries past `budget_bytes`. The row is
    /// stamped with the time that the clock shows now.
    pub fn put_image<'a>(&self, url: &'a str, data: &'a [u8], budget_bytes: i64) -> (put: Put<'a>)
        ensures
            exists|time: SystemTime|
                put@.now == timestamp_of(#[trigger] seconds_at(time)),
            put@ == (PutView {
                table: Evicted::Image,
                key: url@,
                data: data@,
                etag: None,
                budget_bytes,
                now: put@.now,
                phase: Phase::Sizing,
            }),
    {
        let now: i64 = now_secs();
        Put::image_at(url, data, budget_bytes, now)
    }

    /// Load every play-history entry blob, most-recent first.
    pub fn get_play_history(&self) -> (scan: HistoryScan)
        ensures
            scan@ == HistoryScanView::fresh(),
    {
        HistoryScan::new()
    }

    /// Upsert a single play-history entry, deduping and moving-to-front by
    /// `track_id`: a replay updates the row's `played_at` and `entry` in place rather
    /// than appending a duplicate. One statement, and nothing depends on how it went.
    pub fn put_play_history<'a>(
        &self,
        track_id: &'a str,
        played_at_ms: i64,
        entry: &'a [u8],
    ) -> (command: Command<'a>)
        ensures
            command@ == (CommandView::PutHistory {
                track_id: track_id@,
                played_at: played_at_ms,
                entry: entry@,
            }),
            command == (Command::PutHistory { track_id, played_at: played_at_ms, entry }),
    {
        Command::PutHistory { track_id, played_at: played_at_ms, entry }
    }

    /// Delete all play-history rows. One statement, and nothing depends on how it went.
    pub fn clear_play_history(&self) -> (command: Command<'static>)
        ensures
            command@ == CommandView::ClearHistory,
            command == Command::ClearHistory,
    {
        Command::ClearHistory
    }
}

} // verus!
