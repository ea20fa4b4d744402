//! What is sent to the database: the text of each statement and the values bound to it,
//! together with what the statement with that text and those values does.

use vstd::prelude::*;

use crate::cell::CellView;
use crate::command::{
    bound, decimal_text, digit_text, params_view, sql_text, Command, CommandView, Param, ParamView,
};
use crate::model::{effects, is_oldest, total_bytes, yields, Store};
use crate::protocol::ReplyView;
use crate::tables::Evicted;

verus! {

/// The tables and their keys have the names that the schema gives them.
pub proof fn law_table_names(table: Evicted)
    ensures
        table is Image ==> table.name() == "image"@ && table.key_name() == "url"@,
        table is ViewCache ==> table.name() == "view_cache"@ && table.key_name() == "key"@,
{
}

/// The digits of a number, read from left to right.
pub open spec fn number_of(text: Seq<char>) -> int
    decreases text.len(),
{
    if text.len() == 0 {
        0
    } else {
        10 * number_of(text.drop_last()) + (text.last() as int - '0' as int)
    }
}

/// A digit is one character, and stands for its value.
proof fn lemma_digit(digit: nat)
    requires
        digit < 10,
    ensures
        digit_text(digit).len() == 1,
        digit_text(digit)[0] as int == '0' as int + digit,
{
    reveal_strlit("0");
    reveal_strlit("1");
    reveal_strlit("2");
    reveal_strlit("3");
    reveal_strlit("4");
    reveal_strlit("5");
    reveal_strlit("6");
    reveal_strlit("7");
    reveal_strlit("8");
    reveal_strlit("9");
}

/// A number is written in digits that read back as the number, without a leading zero.
pub proof fn law_decimal_reads_back(n: nat)
    ensures
        decimal_text(n).len() > 0,
        forall|i: int|
            0 <= i < decimal_text(n).len() ==> '0' as int <= (#[trigger] decimal_text(n)[i]) as int
                <= '9' as int,
        number_of(decimal_text(n)) == n,
        n > 0 ==> decimal_text(n)[0] != '0',
        n < 10 ==> decimal_text(n).len() == 1,
    decreases n,
{
    let text = decimal_text(n);
    if n < 10 {
        lemma_digit(n);
        assert(text.drop_last() =~= Seq::empty());
        assert(number_of(text.drop_last()) == 0);
    } else {
        law_decimal_reads_back(n / 10);
        lemma_digit(n % 10);
        assert(text.drop_last() =~= decimal_text(n / 10));
        assert(text.last() == digit_text(n % 10)[0]);
        assert forall|i: int| 0 <= i < text.len() implies '0' as int <= (#[trigger] text[i]) as int
            <= '9' as int by {
            if i < text.len() - 1 {
                assert(text[i] == decimal_text(n / 10)[i]);
            }
        }
    }
}

/// The version is read from, and stamped into, the database's own version number; the
/// stamp is the version that a database must have to be kept.
pub proof fn law_version_statements(store: Store, reply: ReplyView, count: u64, after: Store)
    ensures
        sql_text(CommandView::ReadVersion) == "PRAGMA user_version"@,
        sql_text(CommandView::StampVersion) == "PRAGMA user_version = 1"@,
        bound(CommandView::ReadVersion).len() == 0,
        bound(CommandView::StampVersion).len() == 0,
        yields(store, CommandView::ReadVersion, reply) ==> reply == ReplyView::Row(
            seq![CellView::Integer(store.version)],
        ),
        effects(store, CommandView::StampVersion, count, after) ==> after == (Store {
            version: 1,
            ..store
        }),
{
    reveal_strlit("PRAGMA user_version = ");
    reveal_strlit("1");
    reveal_strlit("PRAGMA user_version = 1");
    assert(sql_text(CommandView::StampVersion) =~= "PRAGMA user_version = 1"@);
}

/// Dropping, creating and indexing a cached table is done to that table: the statements
/// name it, and give it the columns that the other statements use.
pub proof fn law_schema_statements(table: Evicted)
    ensures
        sql_text(CommandView::DropTable { table }) == match table {
            Evicted::ViewCache => "DROP TABLE IF EXISTS view_cache"@,
            Evicted::Image => "DROP TABLE IF EXISTS image"@,
        },
        sql_text(CommandView::CreateTable { table }) == match table {
            Evicted::ViewCache =>
                "CREATE TABLE IF NOT EXISTS view_cache (key TEXT PRIMARY KEY, payload BLOB NOT NULL, etag TEXT, bytes INTEGER NOT NULL, updated_at INTEGER NOT NULL, accessed_at INTEGER NOT NULL)"@,
            Evicted::Image =>
                "CREATE TABLE IF NOT EXISTS image (url TEXT PRIMARY KEY, data BLOB NOT NULL, bytes INTEGER NOT NULL, accessed_at INTEGER NOT NULL)"@,
        },
        sql_text(CommandView::IndexTable { table }) == match table {
            Evicted::ViewCache =>
                "CREATE INDEX IF NOT EXISTS idx_view_cache_accessed_at ON view_cache (accessed_at)"@,
            Evicted::Image =>
                "CREATE INDEX IF NOT EXISTS idx_image_accessed_at ON image (accessed_at)"@,
        },
        sql_text(CommandView::CreateHistory)
            == "CREATE TABLE IF NOT EXISTS play_history (track_id TEXT PRIMARY KEY, played_at INTEGER NOT NULL, entry BLOB NOT NULL)"@,
        sql_text(CommandView::IndexHistory)
            == "CREATE INDEX IF NOT EXISTS idx_play_history_played_at ON play_history (played_at DESC)"@,
        bound(CommandView::DropTable { table }).len() == 0,
        bound(CommandView::CreateTable { table }).len() == 0,
        bound(CommandView::IndexTable { table }).len() == 0,
        bound(CommandView::CreateHistory).len() == 0,
        bound(CommandView::IndexHistory).len() == 0,
{
    reveal_strlit("DROP TABLE IF EXISTS ");
    reveal_strlit("view_cache");
    reveal_strlit("image");
    reveal_strlit("DROP TABLE IF EXISTS view_cache");
    reveal_strlit("DROP TABLE IF EXISTS image");
    assert("DROP TABLE IF EXISTS "@ + "view_cache"@ =~= "DROP TABLE IF EXISTS view_cache"@);
    assert("DROP TABLE IF EXISTS "@ + "image"@ =~= "DROP TABLE IF EXISTS image"@);
}

/// A lookup asks the table it is for, for the blob column, by the primary key, and binds
/// the key; it gets the blob stored under that key.
pub proof fn law_lookup_statement(table: Evicted, key: Seq<char>, store: Store, reply: ReplyView)
    ensures
        sql_text(CommandView::Select { table, key }) == match table {
            Evicted::ViewCache => "SELECT payload FROM view_cache WHERE key = ?1"@,
            Evicted::Image => "SELECT data FROM image WHERE url = ?1"@,
        },
        bound(CommandView::Select { table, key }) == seq![ParamView::Text(key)],
        yields(store, CommandView::Select { table, key }, reply) ==> {
            if store.rows(table).contains_key(key) {
                reply == ReplyView::Row(seq![CellView::Blob(store.rows(table)[key].data)])
            } else {
                reply is NoRow
            }
        },
{
}

/// A bump sets the access time, and nothing else, in the table that was read, of the row
/// with that key: the first placeholder gets the time that the row then has, the second
/// the key.
pub proof fn law_bump_statement(
    table: Evicted,
    key: Seq<char>,
    now: i64,
    store: Store,
    count: u64,
    after: Store,
)
    ensures
        sql_text(CommandView::Touch { table, key, now }) == match table {
            Evicted::ViewCache => "UPDATE view_cache SET accessed_at = ?1 WHERE key = ?2"@,
            Evicted::Image => "UPDATE image SET accessed_at = ?1 WHERE url = ?2"@,
        },
        bound(CommandView::Touch { table, key, now }) == seq![
            ParamView::Integer(now),
            ParamView::Text(key),
        ],
        effects(store, CommandView::Touch { table, key, now }, count, after) && store.rows(
            table,
        ).contains_key(key) ==> {
            &&& bound(CommandView::Touch { table, key, now })[0] == ParamView::Integer(
                after.rows(table)[key].accessed_at,
            )
            &&& after.rows(table)[key].data == store.rows(table)[key].data
            &&& after.rows(table)[key].bytes == store.rows(table)[key].bytes
            &&& after.cached(table.other()) == store.cached(table.other())
        },
{
}

/// A write stores its row in the table it is for, in place of a row with the same key:
/// every column that is written is also replaced. The placeholders get what the row then
/// holds: key, blob, etag (in the view cache), size, and the time, which is the access
/// time and in the view cache also the time of the update.
pub proof fn law_write_statement(
    table: Evicted,
    key: Seq<char>,
    data: Seq<u8>,
    etag: Option<Seq<char>>,
    now: i64,
    store: Store,
    count: u64,
    after: Store,
)
    ensures
        ({
            let command = CommandView::Put { table, key, data, etag, now };
            let row = after.rows(table)[key];
            let values = bound(command);
            &&& sql_text(command) == match table {
                Evicted::ViewCache =>
                    "INSERT INTO view_cache (key, payload, etag, bytes, updated_at, accessed_at) VALUES (?1, ?2, ?3, ?4, ?5, ?5) ON CONFLICT(key) DO UPDATE SET payload = excluded.payload, etag = excluded.etag, bytes = excluded.bytes, updated_at = excluded.updated_at, accessed_at = excluded.accessed_at"@,
                Evicted::Image =>
                    "INSERT INTO image (url, data, bytes, accessed_at) VALUES (?1, ?2, ?3, ?4) ON CONFLICT(url) DO UPDATE SET data = excluded.data, bytes = excluded.bytes, accessed_at = excluded.accessed_at"@,
            }
            &&& values.len() == if table is ViewCache {
                5nat
            } else {
                4nat
            }
            &&& values[0] == ParamView::Text(key)
            &&& values[1] == ParamView::Blob(data)
            &&& table is ViewCache ==> values[2] == match etag {
                Some(tag) => ParamView::Text(tag),
                None => ParamView::Null,
            }
            &&& data.len() <= i64::MAX ==> (values[values.len() - 2] matches ParamView::Integer(size)
                && size == data.len())
            &&& values[values.len() - 1] == ParamView::Integer(now)
            &&& effects(store, command, count, after) ==> {
                &&& after.rows(table).contains_key(key)
                &&& values[1] == ParamView::Blob(row.data)
                &&& values[values.len() - 2] == ParamView::Integer(row.bytes)
                &&& values[values.len() - 1] == ParamView::Integer(row.accessed_at)
                &&& table is ViewCache ==> row.view is Some && row.view->0.etag == etag
                    && values[4] == ParamView::Integer(row.view->0.updated_at)
                &&& after.cached(table.other()) == store.cached(table.other())
            }
        }),
{
}

/// Sizing a row reads the size column of the table it is for, by the primary key.
pub proof fn law_row_size_statement(
    table: Evicted,
    key: Seq<char>,
    store: Store,
    reply: ReplyView,
)
    ensures
        sql_text(CommandView::RowBytes { table, key }) == match table {
            Evicted::ViewCache => "SELECT bytes FROM view_cache WHERE key = ?1"@,
            Evicted::Image => "SELECT bytes FROM image WHERE url = ?1"@,
        },
        bound(CommandView::RowBytes { table, key }) == seq![ParamView::Text(key)],
        yields(store, CommandView::RowBytes { table, key }, reply) ==> {
            if store.rows(table).contains_key(key) {
                reply == ReplyView::Row(seq![CellView::Integer(store.rows(table)[key].bytes)])
            } else {
                reply is NoRow
            }
        },
{
    reveal_strlit("SELECT bytes FROM ");
    reveal_strlit("view_cache");
    reveal_strlit("image");
    reveal_strlit(" WHERE ");
    reveal_strlit("key");
    reveal_strlit("url");
    reveal_strlit(" = ?1");
    reveal_strlit("SELECT bytes FROM view_cache WHERE key = ?1");
    reveal_strlit("SELECT bytes FROM image WHERE url = ?1");
    assert("SELECT bytes FROM "@ + "view_cache"@ + " WHERE "@ + "key"@ + " = ?1"@
        =~= "SELECT bytes FROM view_cache WHERE key = ?1"@);
    assert("SELECT bytes FROM "@ + "image"@ + " WHERE "@ + "url"@ + " = ?1"@
        =~= "SELECT bytes FROM image WHERE url = ?1"@);
}

/// Measuring sums the size column of the table it is for, over all of its rows.
pub proof fn law_measuring_statement(table: Evicted, store: Store, reply: ReplyView)
    ensures
        sql_text(CommandView::SumBytes { table }) == match table {
            Evicted::ViewCache => "SELECT COALESCE(SUM(bytes), 0) FROM view_cache"@,
            Evicted::Image => "SELECT COALESCE(SUM(bytes), 0) FROM image"@,
        },
        bound(CommandView::SumBytes { table }).len() == 0,
        yields(store, CommandView::SumBytes { table }, reply) ==> reply == ReplyView::Row(
            seq![CellView::Integer(total_bytes(store.rows(table)) as i64)],
        ),
{
    reveal_strlit("SELECT COALESCE(SUM(bytes), 0) FROM ");
    reveal_strlit("view_cache");
    reveal_strlit("image");
    reveal_strlit("SELECT COALESCE(SUM(bytes), 0) FROM view_cache");
    reveal_strlit("SELECT COALESCE(SUM(bytes), 0) FROM image");
    assert("SELECT COALESCE(SUM(bytes), 0) FROM "@ + "view_cache"@
        =~= "SELECT COALESCE(SUM(bytes), 0) FROM view_cache"@);
    assert("SELECT COALESCE(SUM(bytes), 0) FROM "@ + "image"@
        =~= "SELECT COALESCE(SUM(bytes), 0) FROM image"@);
}

/// The row to evict is asked for by access time alone, earliest first, from the table it
/// is for: it is one that no other row was accessed before.
pub proof fn law_oldest_row_statement(table: Evicted, store: Store, reply: ReplyView)
    ensures
        sql_text(CommandView::OldestRow { table }) == match table {
            Evicted::ViewCache =>
                "SELECT rowid, bytes FROM view_cache ORDER BY accessed_at ASC LIMIT 1"@,
            Evicted::Image => "SELECT rowid, bytes FROM image ORDER BY accessed_at ASC LIMIT 1"@,
        },
        bound(CommandView::OldestRow { table }).len() == 0,
        yields(store, CommandView::OldestRow { table }, reply) && reply is Row ==> exists|
            key: Seq<char>,
        | #[trigger]
            is_oldest(store.rows(table), key) && reply == ReplyView::Row(
                seq![
                    CellView::Integer(store.rows(table)[key].rowid),
                    CellView::Integer(store.rows(table)[key].bytes),
                ],
            ),
{
    reveal_strlit("SELECT rowid, bytes FROM ");
    reveal_strlit("view_cache");
    reveal_strlit("image");
    reveal_strlit(" ORDER BY accessed_at ASC LIMIT 1");
    reveal_strlit("SELECT rowid, bytes FROM view_cache ORDER BY accessed_at ASC LIMIT 1");
    reveal_strlit("SELECT rowid, bytes FROM image ORDER BY accessed_at ASC LIMIT 1");
    assert("SELECT rowid, bytes FROM "@ + "view_cache"@ + " ORDER BY accessed_at ASC LIMIT 1"@
        =~= "SELECT rowid, bytes FROM view_cache ORDER BY accessed_at ASC LIMIT 1"@);
    assert("SELECT rowid, bytes FROM "@ + "image"@ + " ORDER BY accessed_at ASC LIMIT 1"@
        =~= "SELECT rowid, bytes FROM image ORDER BY accessed_at ASC LIMIT 1"@);
}

/// A row is evicted by its id, which is what is bound, from the table it is for.
pub proof fn law_evicting_statement(
    table: Evicted,
    rowid: i64,
    store: Store,
    count: u64,
    after: Store,
)
    ensures
        sql_text(CommandView::DeleteRow { table, rowid }) == match table {
            Evicted::ViewCache => "DELETE FROM view_cache WHERE rowid = ?1"@,
            Evicted::Image => "DELETE FROM image WHERE rowid = ?1"@,
        },
        bound(CommandView::DeleteRow { table, rowid }) == seq![ParamView::Integer(rowid)],
        effects(store, CommandView::DeleteRow { table, rowid }, count, after) ==> {
            &&& after.cached(table.other()) == store.cached(table.other())
            &&& forall|key: Seq<char>| #[trigger]
                store.rows(table).contains_key(key) && store.rows(table)[key].rowid != rowid
                    ==> after.rows(table).contains_key(key)
        },
{
    reveal_strlit("DELETE FROM ");
    reveal_strlit("view_cache");
    reveal_strlit("image");
    reveal_strlit(" WHERE rowid = ?1");
    reveal_strlit("DELETE FROM view_cache WHERE rowid = ?1");
    reveal_strlit("DELETE FROM image WHERE rowid = ?1");
    assert("DELETE FROM "@ + "view_cache"@ + " WHERE rowid = ?1"@
        =~= "DELETE FROM view_cache WHERE rowid = ?1"@);
    assert("DELETE FROM "@ + "image"@ + " WHERE rowid = ?1"@
        =~= "DELETE FROM image WHERE rowid = ?1"@);
}

/// A play is recorded as it is given: the row of its track is replaced as a whole, and the
/// placeholders get the track, the time and the entry that the row then holds, whatever
/// they are.
pub proof fn law_play_statement(
    track_id: Seq<char>,
    played_at: i64,
    entry: Seq<u8>,
    store: Store,
    count: u64,
    after: Store,
)
    ensures
        ({
            let command = CommandView::PutHistory { track_id, played_at, entry };
            &&& sql_text(command)
                == "INSERT INTO play_history (track_id, played_at, entry) VALUES (?1, ?2, ?3) ON CONFLICT(track_id) DO UPDATE SET played_at = excluded.played_at, entry = excluded.entry"@
            &&& bound(command) == seq![
                ParamView::Text(track_id),
                ParamView::Integer(played_at),
                ParamView::Blob(entry),
            ]
            &&& effects(store, command, count, after) ==> {
                &&& after.history->0.contains_key(track_id)
                &&& bound(command)[1] == ParamView::Integer(after.history->0[track_id].played_at)
                &&& bound(command)[2] == ParamView::Blob(after.history->0[track_id].entry)
            }
        }),
{
}

/// The history is read by play time alone, latest first, and cleared as a whole.
pub proof fn law_history_statements(store: Store, count: u64, after: Store)
    ensures
        sql_text(CommandView::SelectHistory)
            == "SELECT entry FROM play_history ORDER BY played_at DESC"@,
        sql_text(CommandView::ClearHistory) == "DELETE FROM play_history"@,
        bound(CommandView::SelectHistory).len() == 0,
        bound(CommandView::ClearHistory).len() == 0,
        effects(store, CommandView::ClearHistory, count, after) ==> after.history->0.dom().is_empty(),
{
    assert(Map::<Seq<char>, crate::model::Played>::empty().dom() =~= Set::empty());
}

/// Two writes, lookups, bumps or plays that differ in a value differ in what is bound: no
/// value is lost on the way to the database.
pub proof fn law_binding_loses_nothing(a: CommandView, b: CommandView)
    requires
        bound(a) == bound(b),
    ensures
        match (a, b) {
            (
                CommandView::PutHistory { track_id, played_at, entry },
                CommandView::PutHistory { track_id: t, played_at: p, entry: e },
            ) => track_id == t && played_at == p && entry == e,
            (
                CommandView::Touch { table: _, key, now },
                CommandView::Touch { table: _, key: k, now: n },
            ) => key == k && now == n,
            (
                CommandView::Select { table: _, key },
                CommandView::Select { table: _, key: k },
            ) => key == k,
            (
                CommandView::RowBytes { table: _, key },
                CommandView::RowBytes { table: _, key: k },
            ) => key == k,
            (
                CommandView::DeleteRow { table: _, rowid },
                CommandView::DeleteRow { table: _, rowid: r },
            ) => rowid == r,
            (
                CommandView::Put { table, key, data, etag, now },
                CommandView::Put { table: t, key: k, data: d, etag: e, now: n },
            ) => table == t ==> key == k && data == d && now == n && (table is ViewCache ==> etag
                == e),
            _ => true,
        },
{
    match (a, b) {
        (
            CommandView::PutHistory { track_id, played_at, entry },
            CommandView::PutHistory { track_id: t, played_at: p, entry: e },
        ) => {
            assert(bound(a)[0] == ParamView::Text(track_id) && bound(b)[0] == ParamView::Text(t));
            assert(bound(a)[1] == ParamView::Integer(played_at));
            assert(bound(b)[1] == ParamView::Integer(p));
            assert(bound(a)[2] == ParamView::Blob(entry) && bound(b)[2] == ParamView::Blob(e));
        },
        (CommandView::Touch { key, now, .. }, CommandView::Touch { key: k, now: n, .. }) => {
            assert(bound(a)[0] == ParamView::Integer(now) && bound(b)[0] == ParamView::Integer(n));
            assert(bound(a)[1] == ParamView::Text(key) && bound(b)[1] == ParamView::Text(k));
        },
        (CommandView::Select { key, .. }, CommandView::Select { key: k, .. }) => {
            assert(bound(a)[0] == ParamView::Text(key) && bound(b)[0] == ParamView::Text(k));
        },
        (CommandView::RowBytes { key, .. }, CommandView::RowBytes { key: k, .. }) => {
            assert(bound(a)[0] == ParamView::Text(key) && bound(b)[0] == ParamView::Text(k));
        },
        (CommandView::DeleteRow { rowid, .. }, CommandView::DeleteRow { rowid: r, .. }) => {
            assert(bound(a)[0] == ParamView::Integer(rowid));
            assert(bound(b)[0] == ParamView::Integer(r));
        },
        (
            CommandView::Put { table, key, data, etag, now },
            CommandView::Put { table: t, key: k, data: d, etag: e, now: n },
        ) => {
            if table == t {
                let last = bound(a).len() - 1;
                assert(bound(a)[0] == ParamView::Text(key) && bound(b)[0] == ParamView::Text(k));
                assert(bound(a)[1] == ParamView::Blob(data) && bound(b)[1] == ParamView::Blob(d));
                assert(bound(a)[last] == ParamView::Integer(now));
                assert(bound(b)[last] == ParamView::Integer(n));
                assert(bound(a)[2] == bound(b)[2]);
            }
        },
        _ => {},
    }
}

/// A command says of its values what they are.
pub proof fn law_command_says_its_values<'a>(command: Command<'a>)
    ensures
        match command {
            Command::ReadVersion => command@ == CommandView::ReadVersion,
            Command::DropTable { table } => command@ == (CommandView::DropTable { table }),
            Command::CreateTable { table } => command@ == (CommandView::CreateTable { table }),
            Command::IndexTable { table } => command@ == (CommandView::IndexTable { table }),
            Command::CreateHistory => command@ == CommandView::CreateHistory,
            Command::IndexHistory => command@ == CommandView::IndexHistory,
            Command::StampVersion => command@ == CommandView::StampVersion,
            Command::Select { table, key } => command@ == (CommandView::Select { table, key: key@ }),
            Command::Touch { table, key, now } => command@ == (CommandView::Touch {
                table,
                key: key@,
                now,
            }),
            Command::RowBytes { table, key } => command@ == (CommandView::RowBytes {
                table,
                key: key@,
            }),
            Command::Put { table, key, data, etag, now } => {
                &&& command@ matches CommandView::Put { table: t, key: k, data: d, etag: e, now: n }
                &&& t == table && k == key@ && d == data@ && n == now
                &&& etag is Some <==> e is Some
                &&& etag is Some ==> e->0 == etag->0@
            },
            Command::SumBytes { table } => command@ == (CommandView::SumBytes { table }),
            Command::OldestRow { table } => command@ == (CommandView::OldestRow { table }),
            Command::DeleteRow { table, rowid } => command@ == (CommandView::DeleteRow {
                table,
                rowid,
            }),
            Command::SelectHistory => command@ == CommandView::SelectHistory,
            Command::PutHistory { track_id, played_at, entry } => command@ == (
            CommandView::PutHistory { track_id: track_id@, played_at, entry: entry@ }),
            Command::ClearHistory => command@ == CommandView::ClearHistory,
        },
{
}

/// A parameter binds the value that it holds, and a list of them binds those in order.
pub proof fn law_params_bind_their_values(params: Seq<Param>, i: int)
    requires
        0 <= i < params.len(),
    ensures
        params_view(params).len() == params.len(),
        match params[i] {
            Param::Null => params_view(params)[i] == ParamView::Null,
            Param::Integer(n) => params_view(params)[i] == ParamView::Integer(n),
            Param::Text(text) => params_view(params)[i] == ParamView::Text(text@),
            Param::Blob(bytes) => params_view(params)[i] == ParamView::Blob(bytes@),
        },
{
}

} // verus!
