//! The SQL statements that the cache issues.

use vstd::prelude::*;
use vstd::slice::slice_to_vec;
use vstd::string::StringExecFns;

use crate::tables::{Evicted, SCHEMA_VERSION};

verus! {

pub const READ_VERSION: &'static str = "PRAGMA user_version";

pub const CREATE_VIEW_CACHE: &'static str = "CREATE TABLE IF NOT EXISTS view_cache (\
    key TEXT PRIMARY KEY, \
    payload BLOB NOT NULL, \
    etag TEXT, \
    bytes INTEGER NOT NULL, \
    updated_at INTEGER NOT NULL, \
    accessed_at INTEGER NOT NULL)";

pub const CREATE_IMAGE: &'static str = "CREATE TABLE IF NOT EXISTS image (\
    url TEXT PRIMARY KEY, \
    data BLOB NOT NULL, \
    bytes INTEGER NOT NULL, \
    accessed_at INTEGER NOT NULL)";

pub const INDEX_VIEW_CACHE: &'static str =
    "CREATE INDEX IF NOT EXISTS idx_view_cache_accessed_at ON view_cache (accessed_at)";

pub const INDEX_IMAGE: &'static str =
    "CREATE INDEX IF NOT EXISTS idx_image_accessed_at ON image (accessed_at)";

pub const CREATE_PLAY_HISTORY: &'static str = "CREATE TABLE IF NOT EXISTS play_history (\
    track_id TEXT PRIMARY KEY, \
    played_at INTEGER NOT NULL, \
    entry BLOB NOT NULL)";

pub const INDEX_PLAY_HISTORY: &'static str =
    "CREATE INDEX IF NOT EXISTS idx_play_history_played_at ON play_history (played_at DESC)";

pub const SELECT_VIEW: &'static str = "SELECT payload FROM view_cache WHERE key = ?1";

pub const SELECT_IMAGE: &'static str = "SELECT data FROM image WHERE url = ?1";

pub const TOUCH_VIEW: &'static str = "UPDATE view_cache SET accessed_at = ?1 WHERE key = ?2";

pub const TOUCH_IMAGE: &'static str = "UPDATE image SET accessed_at = ?1 WHERE url = ?2";

pub const PUT_VIEW: &'static str =
    "INSERT INTO view_cache (key, payload, etag, bytes, updated_at, accessed_at) \
    VALUES (?1, ?2, ?3, ?4, ?5, ?5) \
    ON CONFLICT(key) DO UPDATE SET \
    payload = excluded.payload, \
    etag = excluded.etag, \
    bytes = excluded.bytes, \
    updated_at = excluded.updated_at, \
    accessed_at = excluded.accessed_at";

pub const PUT_IMAGE: &'static str = "INSERT INTO image (url, data, bytes, accessed_at) \
    VALUES (?1, ?2, ?3, ?4) \
    ON CONFLICT(url) DO UPDATE SET \
    data = excluded.data, \
    bytes = excluded.bytes, \
    accessed_at = excluded.accessed_at";

pub const SELECT_HISTORY: &'static str = "SELECT entry FROM play_history ORDER BY played_at DESC";

pub const PUT_HISTORY: &'static str = "INSERT INTO play_history (track_id, played_at, entry) \
    VALUES (?1, ?2, ?3) \
    ON CONFLICT(track_id) DO UPDATE SET \
    played_at = excluded.played_at, \
    entry = excluded.entry";

pub const CLEAR_HISTORY: &'static str = "DELETE FROM play_history";

/// A value bound to a placeholder of a statement.
#[derive(Debug, PartialEq)]
pub enum Param {
    Null,
    Integer(i64),
    Text(String),
    Blob(Vec<u8>),
}

/// What a [`Param`] binds.
pub enum ParamView {
    Null,
    Integer(i64),
    Text(Seq<char>),
    Blob(Seq<u8>),
}

impl View for Param {
    type V = ParamView;

    open spec fn view(&self) -> ParamView {
        match self {
            Param::Null => ParamView::Null,
            Param::Integer(i) => ParamView::Integer(*i),
            Param::Text(text) => ParamView::Text(text@),
            Param::Blob(bytes) => ParamView::Blob(bytes@),
        }
    }
}

/// What a list of parameters binds.
pub open spec fn params_view(params: Seq<Param>) -> Seq<ParamView> {
    params.map_values(|param: Param| param@)
}

/// A statement, with the values that it is about.
#[derive(Clone, Copy, Debug, PartialEq, Eq)]
pub enum Command<'a> {
    /// Read the schema version that the database is stamped with.
    ReadVersion,
    /// Drop a cached table, if it is there.
    DropTable { table: Evicted },
    /// Create a cached table, unless it is there.
    CreateTable { table: Evicted },
    /// Index a cached table by access time, unless it is indexed. Eviction picks the
    /// least-recently-accessed row; without the index it is a full table scan plus a
    /// sort of every cached blob, on every write.
    IndexTable { table: Evicted },
    /// Create the play history, unless it is there.
    CreateHistory,
    /// Index the play history by play time, unless it is indexed.
    IndexHistory,
    /// Stamp the database with [`SCHEMA_VERSION`].
    StampVersion,
    /// Read the blob stored under `key`.
    Select { table: Evicted, key: &'a str },
    /// Set the access time of the row stored under `key`.
    Touch { table: Evicted, key: &'a str, now: i64 },
    /// Read the size of the row stored under `key`.
    RowBytes { table: Evicted, key: &'a str },
    /// Store `data` under `key`, in place of what is stored there. `etag` belongs to
    /// view payloads; the image table has no column for it.
    Put { table: Evicted, key: &'a str, data: &'a [u8], etag: Option<&'a str>, now: i64 },
    /// Sum up the sizes of all rows. A full scan.
    SumBytes { table: Evicted },
    /// Find the id and the size of the least-recently-accessed row.
    OldestRow { table: Evicted },
    /// Delete the row with this id.
    DeleteRow { table: Evicted, rowid: i64 },
    /// Read all history entries, most recent first.
    SelectHistory,
    /// Store the entry of a track, in place of an earlier one.
    PutHistory { track_id: &'a str, played_at: i64, entry: &'a [u8] },
    /// Delete all history entries.
    ClearHistory,
}

/// What a [`Command`] says.
#[verifier::ext_equal]
pub enum CommandView {
    ReadVersion,
    DropTable { table: Evicted },
    CreateTable { table: Evicted },
    IndexTable { table: Evicted },
    CreateHistory,
    IndexHistory,
    StampVersion,
    Select { table: Evicted, key: Seq<char> },
    Touch { table: Evicted, key: Seq<char>, now: i64 },
    RowBytes { table: Evicted, key: Seq<char> },
    Put {
        table: Evicted,
        key: Seq<char>,
        data: Seq<u8>,
        etag: Option<Seq<char>>,
        now: i64,
    },
    SumBytes { table: Evicted },
    OldestRow { table: Evicted },
    DeleteRow { table: Evicted, rowid: i64 },
    SelectHistory,
    PutHistory { track_id: Seq<char>, played_at: i64, entry: Seq<u8> },
    ClearHistory,
}

/// What an optional text holds.
pub open spec fn text_view(text: Option<&str>) -> Option<Seq<char>> {
    match text {
        Some(t) => Some(t@),
        None => None,
    }
}

impl<'a> View for Command<'a> {
    type V = CommandView;

    open spec fn view(&self) -> CommandView {
        match *self {
            Command::ReadVersion => CommandView::ReadVersion,
            Command::DropTable { table } => CommandView::DropTable { table },
            Command::CreateTable { table } => CommandView::CreateTable { table },
            Command::IndexTable { table } => CommandView::IndexTable { table },
            Command::CreateHistory => CommandView::CreateHistory,
            Command::IndexHistory => CommandView::IndexHistory,
            Command::StampVersion => CommandView::StampVersion,
            Command::Select { table, key } => CommandView::Select { table, key: key@ },
            Command::Touch { table, key, now } => CommandView::Touch { table, key: key@, now },
            Command::RowBytes { table, key } => CommandView::RowBytes { table, key: key@ },
            Command::Put { table, key, data, etag, now } => CommandView::Put {
                table,
                key: key@,
                data: data@,
                etag: text_view(etag),
                now,
            },
            Command::SumBytes { table } => CommandView::SumBytes { table },
            Command::OldestRow { table } => CommandView::OldestRow { table },
            Command::DeleteRow { table, rowid } => CommandView::DeleteRow { table, rowid },
            Command::SelectHistory => CommandView::SelectHistory,
            Command::PutHistory { track_id, played_at, entry } => CommandView::PutHistory {
                track_id: track_id@,
                played_at,
                entry: entry@,
            },
            Command::ClearHistory => CommandView::ClearHistory,
        }
    }
}

/// A decimal digit.
pub open spec fn digit_text(digit: nat) -> Seq<char> {
    if digit == 0 {
        "0"@
    } else if digit == 1 {
        "1"@
    } else if digit == 2 {
        "2"@
    } else if digit == 3 {
        "3"@
    } else if digit == 4 {
        "4"@
    } else if digit == 5 {
        "5"@
    } else if digit == 6 {
        "6"@
    } else if digit == 7 {
        "7"@
    } else if digit == 8 {
        "8"@
    } else {
        "9"@
    }
}

/// A number in decimal notation.
pub open spec fn decimal_text(n: nat) -> Seq<char>
    decreases n,
{
    if n < 10 {
        digit_text(n)
    } else {
        decimal_text(n / 10) + digit_text(n % 10)
    }
}

/// The SQL text of a statement.
pub open spec fn sql_text(command: CommandView) -> Seq<char> {
    match command {
        CommandView::ReadVersion => READ_VERSION@,
        CommandView::DropTable { table } => "DROP TABLE IF EXISTS "@ + table.name(),
        CommandView::CreateTable { table: Evicted::ViewCache } => CREATE_VIEW_CACHE@,
        CommandView::CreateTable { table: Evicted::Image } => CREATE_IMAGE@,
        CommandView::IndexTable { table: Evicted::ViewCache } => INDEX_VIEW_CACHE@,
        CommandView::IndexTable { table: Evicted::Image } => INDEX_IMAGE@,
        CommandView::CreateHistory => CREATE_PLAY_HISTORY@,
        CommandView::IndexHistory => INDEX_PLAY_HISTORY@,
        CommandView::StampVersion => "PRAGMA user_version = "@ + decimal_text(
            SCHEMA_VERSION as nat,
        ),
        CommandView::Select { table: Evicted::ViewCache, .. } => SELECT_VIEW@,
        CommandView::Select { table: Evicted::Image, .. } => SELECT_IMAGE@,
        CommandView::Touch { table: Evicted::ViewCache, .. } => TOUCH_VIEW@,
        CommandView::Touch { table: Evicted::Image, .. } => TOUCH_IMAGE@,
        CommandView::RowBytes { table, .. } => "SELECT bytes FROM "@ + table.name() + " WHERE "@
            + table.key_name() + " = ?1"@,
        CommandView::Put { table: Evicted::ViewCache, .. } => PUT_VIEW@,
        CommandView::Put { table: Evicted::Image, .. } => PUT_IMAGE@,
        CommandView::SumBytes { table } => "SELECT COALESCE(SUM(bytes), 0) FROM "@ + table.name(),
        CommandView::OldestRow { table } => "SELECT rowid, bytes FROM "@ + table.name()
            + " ORDER BY accessed_at ASC LIMIT 1"@,
        CommandView::DeleteRow { table, .. } => "DELETE FROM "@ + table.name()
            + " WHERE rowid = ?1"@,
        CommandView::SelectHistory => SELECT_HISTORY@,
        CommandView::PutHistory { .. } => PUT_HISTORY@,
        CommandView::ClearHistory => CLEAR_HISTORY@,
    }
}

/// The values bound to the placeholders of a statement, first to last. A size is
/// bound as a signed number.
pub open spec fn bound(command: CommandView) -> Seq<ParamView> {
    match command {
        CommandView::Select { key, .. } => seq![ParamView::Text(key)],
        CommandView::Touch { key, now, .. } => seq![ParamView::Integer(now), ParamView::Text(key)],
        CommandView::RowBytes { key, .. } => seq![ParamView::Text(key)],
        CommandView::Put { table: Evicted::ViewCache, key, data, etag, now } => seq![
            ParamView::Text(key),
            ParamView::Blob(data),
            match etag {
                Some(tag) => ParamView::Text(tag),
                None => ParamView::Null,
            },
            ParamView::Integer(data.len() as i64),
            ParamView::Integer(now),
        ],
        CommandView::Put { table: Evicted::Image, key, data, now, .. } => seq![
            ParamView::Text(key),
            ParamView::Blob(data),
            ParamView::Integer(data.len() as i64),
            ParamView::Integer(now),
        ],
        CommandView::DeleteRow { rowid, .. } => seq![ParamView::Integer(rowid)],
        CommandView::PutHistory { track_id, played_at, entry } => seq![
            ParamView::Text(track_id),
            ParamView::Integer(played_at),
            ParamView::Blob(entry),
        ],
        _ => seq![],
    }
}

/// A decimal digit.
fn digit(d: u64) -> (text: &'static str)
    requires
        d < 10,
    ensures
        text@ == digit_text(d as nat),
{
    match d {
        0 => "0",
        1 => "1",
        2 => "2",
        3 => "3",
        4 => "4",
        5 => "5",
        6 => "6",
        7 => "7",
        8 => "8",
        _ => "9",
    }
}

/// A number in decimal notation.
pub fn decimal(n: u64) -> (text: String)
    ensures
        text@ == decimal_text(n as nat),
    decreases n,
{
    if n < 10 {
        digit(n).to_string()
    } else {
        decimal(n / 10).concat(digit(n % 10))
    }
}

impl<'a> Command<'a> {
    /// The SQL text of the statement.
    pub fn sql(&self) -> (text: String)
        ensures
            text@ == sql_text(self@),
    {
        match *self {
            Command::ReadVersion => READ_VERSION.to_string(),
            Command::DropTable { table } => "DROP TABLE IF EXISTS ".to_string().concat(
                table.table(),
            ),
            Command::CreateTable { table: Evicted::ViewCache } => CREATE_VIEW_CACHE.to_string(),
            Command::CreateTable { table: Evicted::Image } => CREATE_IMAGE.to_string(),
            Command::IndexTable { table: Evicted::ViewCache } => INDEX_VIEW_CACHE.to_string(),
            Command::IndexTable { table: Evicted::Image } => INDEX_IMAGE.to_string(),
            Command::CreateHistory => CREATE_PLAY_HISTORY.to_string(),
            Command::IndexHistory => INDEX_PLAY_HISTORY.to_string(),
            Command::StampVersion => "PRAGMA user_version = ".to_string().concat(
                decimal(SCHEMA_VERSION as u64).as_str(),
            ),
            Command::Select { table: Evicted::ViewCache, .. } => SELECT_VIEW.to_string(),
            Command::Select { table: Evicted::Image, .. } => SELECT_IMAGE.to_string(),
            Command::Touch { table: Evicted::ViewCache, .. } => TOUCH_VIEW.to_string(),
            Command::Touch { table: Evicted::Image, .. } => TOUCH_IMAGE.to_string(),
            Command::RowBytes { table, .. } => "SELECT bytes FROM ".to_string().concat(
                table.table(),
            ).concat(" WHERE ").concat(table.key_column()).concat(" = ?1"),
            Command::Put { table: Evicted::ViewCache, .. } => PUT_VIEW.to_string(),
            Command::Put { table: Evicted::Image, .. } => PUT_IMAGE.to_string(),
            Command::SumBytes { table } => "SELECT COALESCE(SUM(bytes), 0) FROM ".to_string().concat(
                table.table(),
            ),
            Command::OldestRow { table } => "SELECT rowid, bytes FROM ".to_string().concat(
                table.table(),
            ).concat(" ORDER BY accessed_at ASC LIMIT 1"),
            Command::DeleteRow { table, .. } => "DELETE FROM ".to_string().concat(
                table.table(),
            ).concat(" WHERE rowid = ?1"),
            Command::SelectHistory => SELECT_HISTORY.to_string(),
            Command::PutHistory { .. } => PUT_HISTORY.to_string(),
            Command::ClearHistory => CLEAR_HISTORY.to_string(),
        }
    }

    /// The values to bind to the placeholders of the statement, first to last.
    pub fn params(&self) -> (params: Vec<Param>)
        ensures
            params_view(params@) == bound(self@),
    {
        let mut params: Vec<Param> = Vec::new();
        match *self {
            Command::Select { key, .. } => {
                params.push(Param::Text(key.to_string()));
            },
            Command::Touch { key, now, .. } => {
                params.push(Param::Integer(now));
                params.push(Param::Text(key.to_string()));
            },
            Command::RowBytes { key, .. } => {
                params.push(Param::Text(key.to_string()));
            },
            Command::Put { table, key, data, etag, now } => {
                params.push(Param::Text(key.to_string()));
                params.push(Param::Blob(slice_to_vec(data)));
                if table == Evicted::ViewCache {
                    match etag {
                        Some(tag) => params.push(Param::Text(tag.to_string())),
                        None => params.push(Param::Null),
                    }
                }
                params.push(Param::Integer(data.len() as i64));
                params.push(Param::Integer(now));
            },
            Command::DeleteRow { rowid, .. } => {
                params.push(Param::Integer(rowid));
            },
            Command::PutHistory { track_id, played_at, entry } => {
                params.push(Param::Text(track_id.to_string()));
                params.push(Param::Integer(played_at));
                params.push(Param::Blob(slice_to_vec(entry)));
            },
            _ => {},
        }
        assert(params_view(params@) =~= bound(self@));
        params
    }
}

} // verus!
