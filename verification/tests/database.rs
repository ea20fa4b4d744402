//! The cache on a real, ephemeral database.

use std::future::Future;
use std::path::Path;

use cache::cell::{read_row, Cell};
use cache::clock::now_secs;
use cache::command::{Command, Param};
use cache::db::Db;
use cache::put::{Phase, Put};
use cache::protocol::{Reply, Request};
use cache::tables::{Evicted, SCHEMA_VERSION};
use cache::totals::UNKNOWN_TOTAL;

fn block_on<F: Future>(future: F) -> F::Output {
    tokio::runtime::Builder::new_current_thread().build().expect("runtime").block_on(future)
}

/// An open database and the session on it.
struct Session {
    conn: turso::Connection,
    db: Db,
}

fn value(param: Param) -> turso::Value {
    match param {
        Param::Null => turso::Value::Null,
        Param::Integer(i) => turso::Value::Integer(i),
        Param::Text(text) => turso::Value::Text(text),
        Param::Blob(bytes) => turso::Value::Blob(bytes),
    }
}

fn values(command: &Command<'_>) -> Vec<turso::Value> {
    command.params().into_iter().map(value).collect()
}

async fn next_row(rows: &mut turso::Rows) -> Reply {
    match rows.next().await {
        Ok(Some(row)) => Reply::Row(read_row(&row)),
        Ok(None) => Reply::NoRow,
        Err(_) => Reply::Failed,
    }
}

async fn perform(
    conn: &turso::Connection,
    cursor: &mut Option<turso::Rows>,
    request: Request<'_>,
) -> Reply {
    match request {
        Request::Query(command) => {
            let params = turso::params_from_iter(values(&command));
            match conn.query(command.sql(), params).await {
                Ok(mut rows) => {
                    let reply = next_row(&mut rows).await;
                    *cursor = Some(rows);
                    reply
                }
                Err(_) => Reply::Failed,
            }
        }
        Request::NextRow => match cursor {
            Some(rows) => next_row(rows).await,
            None => Reply::Failed,
        },
        Request::Execute(command) => {
            *cursor = None;
            let params = turso::params_from_iter(values(&command));
            match conn.execute(command.sql(), params).await {
                Ok(count) => Reply::Count(count),
                Err(_) => Reply::Failed,
            }
        }
    }
}

async fn connect(name: &str) -> turso::Connection {
    turso::Builder::new_local(name).build().await.expect("build").connect().expect("connect")
}

async fn set_up(conn: &turso::Connection, path: &Path) -> Option<Db> {
    let mut opening = Db::open(path);
    let mut cursor = None;
    while let Some(request) = opening.request() {
        let reply = perform(conn, &mut cursor, request).await;
        opening = opening.feed(&reply);
    }
    Db::opened(&opening)
}

async fn mem_db() -> Session {
    let path = Path::new(":memory:");
    let conn = connect(&Db::open(path).name).await;
    let db = set_up(&conn, path).await.expect("open db");
    Session { conn, db }
}

impl Session {
    async fn run_put(&mut self, mut put: Put<'_>) -> Phase {
        let mut cursor = None;
        while let Some(request) = put.request() {
            let reply = perform(&self.conn, &mut cursor, request).await;
            assert!(put.in_range(&self.db.totals, &reply));
            put.feed(&mut self.db.totals, &reply);
        }
        put.phase
    }

    async fn put_view(&mut self, key: &str, payload: &[u8], etag: Option<&str>, budget: i64) {
        let put = self.db.put_view(key, payload, etag, budget);
        self.run_put(put).await;
    }

    async fn put_image(&mut self, url: &str, data: &[u8], budget: i64) {
        let put = self.db.put_image(url, data, budget);
        self.run_put(put).await;
    }

    async fn get_view(&self, key: &str) -> Option<Vec<u8>> {
        let mut fetch = self.db.get_view(key);
        let mut cursor = None;
        while let Some(request) = fetch.request() {
            let reply = perform(&self.conn, &mut cursor, request).await;
            fetch = fetch.feed(reply);
        }
        fetch.found()
    }

    async fn get_image(&self, url: &str) -> Option<Vec<u8>> {
        let mut fetch = self.db.get_image(url);
        let mut cursor = None;
        while let Some(request) = fetch.request() {
            let reply = perform(&self.conn, &mut cursor, request).await;
            fetch = fetch.feed(reply);
        }
        fetch.found()
    }

    async fn execute(&self, command: Command<'_>) -> Reply {
        perform(&self.conn, &mut None, Request::Execute(command)).await
    }

    async fn put_play_history(&self, track_id: &str, played_at_ms: i64, entry: &[u8]) {
        self.execute(self.db.put_play_history(track_id, played_at_ms, entry)).await;
    }

    async fn clear_play_history(&self) {
        self.execute(self.db.clear_play_history()).await;
    }

    async fn get_play_history(&self) -> Vec<Vec<u8>> {
        let mut scan = self.db.get_play_history();
        let mut cursor = None;
        while let Some(request) = scan.request() {
            let reply = perform(&self.conn, &mut cursor, request).await;
            scan.feed(reply);
        }
        scan.entries
    }

    async fn integer(&self, sql: &str) -> i64 {
        let mut rows = self.conn.query(sql, ()).await.expect("query");
        let row = rows.next().await.expect("row").expect("one row");
        match read_row(&row).remove(0) {
            Cell::Integer(i) => i,
            other => panic!("not an integer: {other:?}"),
        }
    }
}

#[test]
fn view_blob_round_trips() {
    block_on(async {
        let mut db = mem_db().await;
        let payload = vec![0u8, 1, 2, 3, 250, 251, 252, 253];
        db.put_view("album:42", &payload, Some("etag-1"), 1024 * 1024).await;
        let got = db.get_view("album:42").await;
        assert_eq!(got.as_deref(), Some(payload.as_slice()));
        assert!(db.get_view("album:nope").await.is_none());
    });
}

#[test]
fn view_upsert_replaces() {
    block_on(async {
        let mut db = mem_db().await;
        db.put_view("k", b"first", None, 1024 * 1024).await;
        db.put_view("k", b"second", None, 1024 * 1024).await;
        assert_eq!(db.get_view("k").await.as_deref(), Some(&b"second"[..]));
    });
}

#[test]
fn image_round_trips() {
    block_on(async {
        let mut db = mem_db().await;
        db.put_image("https://x/y.jpg", &[9u8; 64], 1024 * 1024).await;
        assert_eq!(db.get_image("https://x/y.jpg").await.map(|d| d.len()), Some(64));
    });
}

#[test]
fn image_budget_evicts_until_it_fits() {
    block_on(async {
        let mut db = mem_db().await;
        let urls = ["https://x/1.jpg", "https://x/2.jpg", "https://x/3.jpg"];
        // Budget for two of the three 100-byte images.
        for url in urls {
            db.put_image(url, &[0u8; 100], 250).await;
        }
        let mut kept = 0;
        for url in urls {
            kept += usize::from(db.get_image(url).await.is_some());
        }
        // Which rows survive depends on `accessed_at`, which has one-second
        // resolution, so only the count is pinned down here.
        assert_eq!(kept, 2);
    });
}

#[test]
fn rewriting_an_image_does_not_inflate_the_budget() {
    block_on(async {
        let mut db = mem_db().await;
        // The live total tracks replacement, not accumulation: ten writes of
        // the same 100-byte key stay 100 bytes, so a second image still fits
        // under a 250-byte budget.
        for _ in 0..10 {
            db.put_image("https://x/1.jpg", &[0u8; 100], 250).await;
        }
        db.put_image("https://x/2.jpg", &[0u8; 100], 250).await;
        assert!(db.get_image("https://x/1.jpg").await.is_some());
        assert!(db.get_image("https://x/2.jpg").await.is_some());
    });
}

#[test]
fn play_history_orders_by_played_at_desc() {
    block_on(async {
        let db = mem_db().await;
        db.put_play_history("a", 100, b"entry-a").await;
        db.put_play_history("b", 300, b"entry-b").await;
        db.put_play_history("c", 200, b"entry-c").await;

        let got = db.get_play_history().await;
        // Most-recent first: b (300), c (200), a (100).
        assert_eq!(got.len(), 3);
        assert_eq!(got[0].as_slice(), b"entry-b");
        assert_eq!(got[1].as_slice(), b"entry-c");
        assert_eq!(got[2].as_slice(), b"entry-a");
    });
}

#[test]
fn play_history_upsert_dedups_and_moves_to_front() {
    block_on(async {
        let db = mem_db().await;
        db.put_play_history("a", 100, b"entry-a").await;
        db.put_play_history("b", 200, b"entry-b").await;
        // Replay "a" with a newer timestamp and refreshed payload.
        db.put_play_history("a", 300, b"entry-a-v2").await;

        let got = db.get_play_history().await;
        // Still two rows (deduped by track_id), "a" now at the front.
        assert_eq!(got.len(), 2);
        assert_eq!(got[0].as_slice(), b"entry-a-v2");
        assert_eq!(got[1].as_slice(), b"entry-b");
    });
}

#[test]
fn play_history_clear_empties_the_table() {
    block_on(async {
        let db = mem_db().await;
        db.put_play_history("a", 100, b"entry-a").await;
        db.put_play_history("b", 200, b"entry-b").await;
        db.clear_play_history().await;
        assert!(db.get_play_history().await.is_empty());
    });
}

#[test]
fn eviction_takes_the_oldest_rows_first() {
    block_on(async {
        let mut db = mem_db().await;
        for (url, at) in [("a", 30), ("b", 10), ("c", 20)] {
            let phase = db.run_put(Put::image_at(url, &[1u8; 100], 1000, at)).await;
            assert_eq!(phase, Phase::Finished);
        }
        db.run_put(Put::image_at("d", &[2u8; 100], 250, 40)).await;
        assert!(db.get_image("b").await.is_none());
        assert!(db.get_image("c").await.is_none());
        assert_eq!(db.get_image("a").await, Some(vec![1u8; 100]));
        assert_eq!(db.get_image("d").await, Some(vec![2u8; 100]));
        assert_eq!(db.db.totals.image, 200);
        assert_eq!(db.db.totals.view_cache, UNKNOWN_TOTAL);
    });
}

#[test]
fn a_read_saves_a_row_from_eviction() {
    block_on(async {
        let mut db = mem_db().await;
        db.run_put(Put::view_at("old", &[1u8; 100], None, 1000, 10)).await;
        db.run_put(Put::view_at("newer", &[2u8; 100], None, 1000, 20)).await;
        assert!(db.get_view("old").await.is_some());
        let now = now_secs();
        db.run_put(Put::view_at("newest", &[3u8; 100], None, 250, now)).await;
        assert!(db.get_view("newer").await.is_none());
        assert!(db.get_view("old").await.is_some());
        assert!(db.get_view("newest").await.is_some());
    });
}

#[test]
fn a_row_over_the_whole_budget_is_evicted_too() {
    block_on(async {
        let mut db = mem_db().await;
        db.put_image("big", &[0u8; 300], 250).await;
        assert!(db.get_image("big").await.is_none());
        assert_eq!(db.db.totals.image, 0);
    });
}

#[test]
fn without_a_budget_nothing_is_evicted_or_measured() {
    block_on(async {
        let mut db = mem_db().await;
        for url in ["a", "b", "c"] {
            db.put_image(url, &[0u8; 1000], 0).await;
            db.put_image(url, &[0u8; 1000], -5).await;
        }
        assert_eq!(db.db.totals.image, UNKNOWN_TOTAL);
        for url in ["a", "b", "c"] {
            assert_eq!(db.get_image(url).await.map(|d| d.len()), Some(1000));
        }
    });
}

#[test]
fn a_write_without_a_budget_counts_for_the_next_one_with() {
    block_on(async {
        let mut db = mem_db().await;
        let urls = ["a", "b", "c"];
        db.put_image("a", &[0u8; 100], 250).await;
        db.put_image("b", &[0u8; 100], 0).await;
        assert_eq!(db.db.totals.image, 200);
        db.put_image("c", &[0u8; 100], 250).await;
        let mut kept = 0;
        for url in urls {
            kept += usize::from(db.get_image(url).await.is_some());
        }
        assert_eq!(kept, 2);
        assert_eq!(db.db.totals.image, 200);
    });
}

#[test]
fn a_new_row_that_fits_alone_outlives_all_older_ones() {
    block_on(async {
        let mut db = mem_db().await;
        db.run_put(Put::image_at("a", &[1u8; 100], 1000, 10)).await;
        db.run_put(Put::image_at("b", &[1u8; 100], 1000, 20)).await;
        db.run_put(Put::image_at("c", &[2u8; 250], 250, 30)).await;
        assert!(db.get_image("a").await.is_none());
        assert!(db.get_image("b").await.is_none());
        assert_eq!(db.get_image("c").await, Some(vec![2u8; 250]));
    });
}

#[test]
fn a_failed_opening_is_repeated_by_the_next() {
    block_on(async {
        let mut db = mem_db().await;
        db.put_view("k", b"view", None, 100).await;
        db.conn.execute("PRAGMA user_version = 7", ()).await.expect("stamp");
        let mut opening = Db::open(Path::new(":memory:"));
        let mut cursor = None;
        let request = opening.request().expect("the version");
        let version = perform(&db.conn, &mut cursor, request).await;
        opening = opening.feed(&version).feed(&Reply::Failed);
        assert!(Db::opened(&opening).is_none());
        assert_eq!(db.integer("PRAGMA user_version").await, 7);
        db.db = set_up(&db.conn, Path::new(":memory:")).await.expect("reopen");
        assert!(db.get_view("k").await.is_none());
    });
}

#[test]
fn live_totals_match_the_tables() {
    block_on(async {
        let mut db = mem_db().await;
        let writes = [("a", 10, 40), ("b", 20, 40), ("a", 35, 0), ("c", 5, 40), ("b", 1, -1)];
        for (key, size, budget) in writes {
            db.put_view(key, &vec![7u8; size], Some("e"), budget).await;
            let total = db.integer("SELECT COALESCE(SUM(bytes), 0) FROM view_cache").await;
            assert_eq!(db.db.totals.view_cache, total);
            assert!(budget <= 0 || total <= budget);
        }
    });
}

#[test]
fn a_view_row_is_stored_with_all_its_columns() {
    block_on(async {
        let mut db = mem_db().await;
        db.run_put(Put::view_at("k", b"abc", Some("tag"), 100, 17)).await;
        let sql = "SELECT key, payload, etag, bytes, updated_at, accessed_at, 1.5, NULL FROM view_cache";
        let mut rows = db.conn.query(sql, ()).await.expect("query");
        let row = rows.next().await.expect("row").expect("one row");
        assert_eq!(
            read_row(&row),
            vec![
                Cell::Text("k".to_string()),
                Cell::Blob(b"abc".to_vec()),
                Cell::Text("tag".to_string()),
                Cell::Integer(3),
                Cell::Integer(17),
                Cell::Integer(17),
                Cell::Real,
                Cell::Null,
            ]
        );
    });
}

#[test]
fn an_absent_etag_is_stored_as_null() {
    block_on(async {
        let mut db = mem_db().await;
        db.run_put(Put::view_at("k", b"abc", Some("tag"), 100, 17)).await;
        db.run_put(Put::view_at("k", b"abc", None, 100, 18)).await;
        assert_eq!(db.integer("SELECT etag IS NULL FROM view_cache").await, 1);
    });
}

#[test]
fn the_tables_do_not_mix() {
    block_on(async {
        let mut db = mem_db().await;
        db.put_view("k", b"view", None, 100).await;
        db.put_image("k", b"image", 100).await;
        db.put_play_history("k", 1, b"entry").await;
        db.clear_play_history().await;
        assert_eq!(db.get_view("k").await, Some(b"view".to_vec()));
        assert_eq!(db.get_image("k").await, Some(b"image".to_vec()));
        assert_eq!(db.db.totals.view_cache, 4);
        assert_eq!(db.db.totals.image, 5);
    });
}

#[test]
fn reopening_the_same_version_keeps_everything() {
    block_on(async {
        let mut db = mem_db().await;
        assert_eq!(db.integer("PRAGMA user_version").await, SCHEMA_VERSION);
        db.put_view("k", b"view", None, 100).await;
        db.put_play_history("t", 1, b"entry").await;
        db.db = set_up(&db.conn, Path::new(":memory:")).await.expect("reopen");
        assert_eq!(db.db.totals.view_cache, UNKNOWN_TOTAL);
        assert_eq!(db.get_view("k").await, Some(b"view".to_vec()));
        assert_eq!(db.get_play_history().await, vec![b"entry".to_vec()]);
    });
}

#[test]
fn another_version_empties_the_caches_and_keeps_the_history() {
    block_on(async {
        let mut db = mem_db().await;
        db.put_view("k", b"view", None, 100).await;
        db.put_image("u", b"image", 100).await;
        db.put_play_history("t", 1, b"entry").await;
        db.conn.execute("PRAGMA user_version = 7", ()).await.expect("stamp");
        db.db = set_up(&db.conn, Path::new(":memory:")).await.expect("reopen");
        assert!(db.get_view("k").await.is_none());
        assert!(db.get_image("u").await.is_none());
        assert_eq!(db.get_play_history().await, vec![b"entry".to_vec()]);
        assert_eq!(db.integer("PRAGMA user_version").await, SCHEMA_VERSION);
    });
}

#[test]
fn a_missing_table_is_an_error_that_changes_nothing() {
    block_on(async {
        let mut db = mem_db().await;
        let drop = Command::DropTable { table: Evicted::Image };
        assert!(db.execute(drop).await != Reply::Failed);
        let put = Put::image_at("u", b"image", 100, 1);
        assert_eq!(db.run_put(put).await, Phase::Rejected);
        assert_eq!(db.db.totals.image, UNKNOWN_TOTAL);
        assert!(db.get_image("u").await.is_none());
    });
}

#[test]
fn deleting_a_row_that_is_gone_changes_none() {
    block_on(async {
        let db = mem_db().await;
        let delete = Command::DeleteRow { table: Evicted::ViewCache, rowid: 99 };
        assert_eq!(db.execute(delete).await, Reply::Count(0));
    });
}

#[test]
fn an_empty_table_has_no_oldest_row_and_sums_to_nothing() {
    block_on(async {
        let db = mem_db().await;
        let table = Evicted::Image;
        let oldest = Request::Query(Command::OldestRow { table });
        assert_eq!(perform(&db.conn, &mut None, oldest).await, Reply::NoRow);
        let sum = Request::Query(Command::SumBytes { table });
        assert_eq!(perform(&db.conn, &mut None, sum).await, Reply::Row(vec![Cell::Integer(0)]));
    });
}
