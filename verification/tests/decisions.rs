//! The decisions of each operation, answer by answer.

use std::path::Path;

use cache::cell::Cell;
use cache::clock::{now_secs, timestamp};
use cache::command::{decimal, Command, Param};
use cache::db::Db;
use cache::fetch::Fetch;
use cache::history::HistoryScan;
use cache::open::{init_schema, location, user_version, OpenPhase};
use cache::put::{enforce_budget, oldest_row, row_bytes, sum_bytes, Phase, Put};
use cache::protocol::{Reply, Request};
use cache::tables::Evicted;
use cache::totals::{Totals, UNKNOWN_TOTAL};

fn integers(values: &[i64]) -> Reply {
    Reply::Row(values.iter().map(|v| Cell::Integer(*v)).collect())
}

#[test]
fn tables_have_their_names() {
    assert_eq!(Evicted::Image.table(), "image");
    assert_eq!(Evicted::ViewCache.table(), "view_cache");
    assert_eq!(Evicted::Image.key_column(), "url");
    assert_eq!(Evicted::ViewCache.key_column(), "key");
}

#[test]
fn totals_start_unknown_and_are_kept_per_table() {
    let mut totals = Totals::new();
    assert_eq!(*totals.cell(Evicted::Image), UNKNOWN_TOTAL);
    assert_eq!(*totals.cell(Evicted::ViewCache), UNKNOWN_TOTAL);
    totals.store(Evicted::Image, 12);
    assert_eq!(*totals.cell(Evicted::Image), 12);
    assert_eq!(*totals.cell(Evicted::ViewCache), UNKNOWN_TOTAL);
}

#[test]
fn timestamps_are_signed_seconds() {
    assert_eq!(timestamp(Some(1_700_000_000)), 1_700_000_000);
    assert_eq!(timestamp(Some(i64::MAX as u64)), i64::MAX);
    assert_eq!(timestamp(Some(i64::MAX as u64 + 1)), i64::MIN);
    assert_eq!(timestamp(Some(u64::MAX)), -1);
    assert_eq!(timestamp(None), 0);
}

#[test]
fn the_clock_agrees_with_the_system() {
    let elapsed = || {
        std::time::SystemTime::now().duration_since(std::time::UNIX_EPOCH).expect("past 1970").as_secs()
            as i64
    };
    let before = elapsed();
    let now = now_secs();
    assert!(before <= now && now <= elapsed());
}

#[test]
fn numbers_are_written_in_decimal() {
    assert_eq!(decimal(0), "0");
    assert_eq!(decimal(7), "7");
    assert_eq!(decimal(10), "10");
    assert_eq!(decimal(u64::MAX), "18446744073709551615");
}

#[test]
fn statements_are_the_sql_that_they_mean() {
    let view = Evicted::ViewCache;
    let image = Evicted::Image;
    assert_eq!(Command::ReadVersion.sql(), "PRAGMA user_version");
    assert_eq!(Command::StampVersion.sql(), "PRAGMA user_version = 1");
    assert_eq!(Command::DropTable { table: view }.sql(), "DROP TABLE IF EXISTS view_cache");
    assert_eq!(
        Command::RowBytes { table: image, key: "u" }.sql(),
        "SELECT bytes FROM image WHERE url = ?1"
    );
    assert_eq!(
        Command::SumBytes { table: view }.sql(),
        "SELECT COALESCE(SUM(bytes), 0) FROM view_cache"
    );
    assert_eq!(
        Command::OldestRow { table: image }.sql(),
        "SELECT rowid, bytes FROM image ORDER BY accessed_at ASC LIMIT 1"
    );
    assert_eq!(
        Command::DeleteRow { table: view, rowid: 3 }.sql(),
        "DELETE FROM view_cache WHERE rowid = ?1"
    );
    assert_eq!(
        Command::PutHistory { track_id: "t", played_at: 1, entry: b"e" }.sql(),
        "INSERT INTO play_history (track_id, played_at, entry) VALUES (?1, ?2, ?3) \
         ON CONFLICT(track_id) DO UPDATE SET played_at = excluded.played_at, entry = excluded.entry"
    );
}

#[test]
fn statements_bind_their_values_in_order() {
    let text = |s: &str| Param::Text(s.to_string());
    assert_eq!(Command::ClearHistory.params(), vec![]);
    assert_eq!(
        Command::Touch { table: Evicted::Image, key: "u", now: 5 }.params(),
        vec![Param::Integer(5), text("u")]
    );
    let put = |table, etag| Command::Put { table, key: "k", data: &[1, 2], etag, now: 9 }.params();
    assert_eq!(
        put(Evicted::ViewCache, Some("e")),
        vec![text("k"), Param::Blob(vec![1, 2]), text("e"), Param::Integer(2), Param::Integer(9)]
    );
    assert_eq!(put(Evicted::ViewCache, None)[2], Param::Null);
    assert_eq!(
        put(Evicted::Image, None),
        vec![text("k"), Param::Blob(vec![1, 2]), Param::Integer(2), Param::Integer(9)]
    );
    assert_eq!(
        Command::PutHistory { track_id: "t", played_at: -4, entry: b"e" }.params(),
        vec![text("t"), Param::Integer(-4), Param::Blob(b"e".to_vec())]
    );
}

#[test]
fn a_path_names_its_database() {
    assert_eq!(Db::open(Path::new("/tmp/cache.db")).name, "/tmp/cache.db");
    assert_eq!(Db::open(Path::new(":memory:")).name, ":memory:");
    assert_eq!(location(None), ":memory:");
}

#[test]
fn the_stamped_version_is_read_leniently() {
    assert_eq!(user_version(&integers(&[1])), Some(1));
    assert_eq!(user_version(&Reply::NoRow), Some(0));
    assert_eq!(user_version(&Reply::Row(vec![Cell::Null])), Some(0));
    assert_eq!(user_version(&Reply::Row(vec![])), None);
    assert_eq!(user_version(&Reply::Failed), None);
}

#[test]
fn only_another_version_drops_tables() {
    assert_eq!(init_schema(1).len(), 7);
    let steps = init_schema(0);
    assert_eq!(steps.len(), 9);
    assert_eq!(steps[0], Command::DropTable { table: Evicted::ViewCache });
    assert_eq!(steps[1], Command::DropTable { table: Evicted::Image });
    assert_eq!(steps[2..], init_schema(1));
    assert_eq!(steps[8], Command::StampVersion);
}

#[test]
fn opening_fails_with_whichever_statement_fails() {
    for good in 0..9 {
        let mut opening = Db::open(Path::new("x")).feed(&integers(&[0]));
        for _ in 0..good {
            opening = opening.feed(&Reply::Count(0));
        }
        assert_eq!(opening.request(), Some(Request::Execute(init_schema(0)[good])));
        opening = opening.feed(&Reply::Failed);
        assert!(matches!(opening.phase, OpenPhase::Failed));
        assert_eq!(opening.request(), None);
        assert!(Db::opened(&opening).is_none());
    }
}

#[test]
fn opening_fails_where_the_version_cannot_be_read() {
    let opening = Db::open(Path::new("x")).feed(&Reply::Failed);
    assert!(matches!(opening.phase, OpenPhase::Failed));
}

#[test]
fn opening_ends_ready() {
    let mut opening = Db::open(Path::new("x")).feed(&integers(&[1]));
    for _ in 0..7 {
        assert!(Db::opened(&opening).is_none());
        opening = opening.feed(&Reply::Count(0));
    }
    assert_eq!(opening.request(), None);
    assert_eq!(Db::opened(&opening).expect("ready").totals, Totals::new());
}

#[test]
fn a_read_touches_what_it_finds() {
    let fetch = Fetch::new(Evicted::Image, "u");
    assert_eq!(
        fetch.request(),
        Some(Request::Query(Command::Select { table: Evicted::Image, key: "u" }))
    );
    let fetch = fetch.feed_at(Reply::Row(vec![Cell::Blob(vec![4, 5])]), 33);
    assert_eq!(
        fetch.request(),
        Some(Request::Execute(Command::Touch { table: Evicted::Image, key: "u", now: 33 }))
    );
    let fetch = fetch.feed_at(Reply::Failed, 34);
    assert_eq!(fetch.request(), None);
    assert_eq!(fetch.found(), Some(vec![4, 5]));
}

#[test]
fn a_read_that_finds_no_blob_touches_nothing() {
    for reply in [Reply::NoRow, Reply::Failed, Reply::Row(vec![]), integers(&[1])] {
        let fetch = Fetch::new(Evicted::ViewCache, "k").feed_at(reply, 1);
        assert_eq!(fetch.request(), None);
        assert_eq!(fetch.found(), None);
    }
}

#[test]
fn a_scan_skips_what_is_no_blob_and_stops_at_an_error() {
    let mut scan = HistoryScan::new();
    assert_eq!(scan.request(), Some(Request::Query(Command::SelectHistory)));
    scan.feed(Reply::Row(vec![Cell::Blob(vec![1])]));
    assert_eq!(scan.request(), Some(Request::NextRow));
    scan.feed(Reply::Row(vec![Cell::Null]));
    scan.feed(Reply::Row(vec![Cell::Blob(vec![2])]));
    scan.feed(Reply::Failed);
    assert_eq!(scan.request(), None);
    scan.feed(Reply::Row(vec![Cell::Blob(vec![3])]));
    assert_eq!(scan.entries, vec![vec![1], vec![2]]);
}

#[test]
fn answers_about_sizes_are_read_leniently() {
    assert_eq!(row_bytes(&integers(&[5])), 5);
    assert_eq!(row_bytes(&Reply::NoRow), 0);
    assert_eq!(row_bytes(&Reply::Failed), 0);
    assert_eq!(row_bytes(&Reply::Row(vec![Cell::Null])), 0);
    assert_eq!(sum_bytes(&integers(&[9])), Some(9));
    assert_eq!(sum_bytes(&Reply::Failed), None);
    assert_eq!(oldest_row(&integers(&[3, 70])), Some((3, 70)));
    assert_eq!(oldest_row(&integers(&[3])), None);
    assert_eq!(oldest_row(&Reply::NoRow), None);
}

#[test]
fn enforcing_a_budget_measures_once() {
    let mut totals = Totals::new();
    assert_eq!(enforce_budget(&mut totals, Evicted::Image, 10, 0), Phase::Finished);
    assert_eq!(enforce_budget(&mut totals, Evicted::Image, 10, 50), Phase::Measuring);
    assert_eq!(totals, Totals::new());
    totals.store(Evicted::Image, 45);
    assert_eq!(enforce_budget(&mut totals, Evicted::Image, 5, 50), Phase::Finished);
    assert_eq!(totals.image, 50);
    assert_eq!(enforce_budget(&mut totals, Evicted::Image, 1, 50), Phase::Choosing { total: 51 });
    assert_eq!(totals.image, 50);
    assert_eq!(enforce_budget(&mut totals, Evicted::Image, 30, 0), Phase::Finished);
    assert_eq!(totals.image, 80);
    assert_eq!(enforce_budget(&mut totals, Evicted::Image, -10, -1), Phase::Finished);
    assert_eq!(totals.image, 70);
}

#[test]
fn a_known_total_is_not_measured_again() {
    let mut totals = Totals::new();
    totals.store(Evicted::Image, 100);
    let data = [0u8; 40];
    let mut put = Put::image_at("u", &data, 200, 1);
    assert_eq!(
        put.request(),
        Some(Request::Query(Command::RowBytes { table: Evicted::Image, key: "u" }))
    );
    put.feed(&mut totals, &integers(&[30]));
    assert_eq!(put.phase, Phase::Writing { replaced: 30 });
    put.feed(&mut totals, &Reply::Count(1));
    assert_eq!(put.phase, Phase::Finished);
    assert_eq!(totals.image, 110);
}

#[test]
fn a_write_evicts_row_by_row() {
    let mut totals = Totals::new();
    let data = [0u8; 40];
    let mut put = Put::image_at("u", &data, 100, 1);
    put.feed(&mut totals, &Reply::NoRow);
    put.feed(&mut totals, &Reply::Count(1));
    assert_eq!(put.phase, Phase::Measuring);
    put.feed(&mut totals, &integers(&[170]));
    assert_eq!(put.phase, Phase::Choosing { total: 170 });
    put.feed(&mut totals, &integers(&[8, 50]));
    assert_eq!(
        put.request(),
        Some(Request::Execute(Command::DeleteRow { table: Evicted::Image, rowid: 8 }))
    );
    put.feed(&mut totals, &Reply::Count(1));
    assert_eq!(put.phase, Phase::Choosing { total: 120 });
    put.feed(&mut totals, &integers(&[9, 30]));
    put.feed(&mut totals, &Reply::Count(1));
    assert_eq!(put.phase, Phase::Finished);
    assert_eq!(totals.image, 90);
}

#[test]
fn eviction_stops_at_an_error_and_keeps_the_total() {
    for (answer, stop) in [(Reply::NoRow, None), (integers(&[8, 50]), Some(Reply::Failed))] {
        let mut totals = Totals::new();
        totals.store(Evicted::ViewCache, 170);
        let mut put = Put::view_at("k", &[], None, 100, 1);
        put.feed(&mut totals, &Reply::NoRow);
        put.feed(&mut totals, &Reply::Count(1));
        put.feed(&mut totals, &answer);
        if let Some(reply) = stop {
            put.feed(&mut totals, &reply);
        }
        assert_eq!(put.phase, Phase::Finished);
        assert_eq!(totals.view_cache, 170);
    }
}

#[test]
fn a_table_that_cannot_be_measured_stays_unknown() {
    let mut totals = Totals::new();
    let mut put = Put::view_at("k", &[1], None, 100, 1);
    put.feed(&mut totals, &Reply::Failed);
    put.feed(&mut totals, &Reply::Count(1));
    put.feed(&mut totals, &Reply::Failed);
    assert_eq!(put.phase, Phase::Finished);
    assert_eq!(totals, Totals::new());
}

#[test]
fn a_row_that_could_not_be_sized_counts_in_full() {
    let mut totals = Totals::new();
    totals.store(Evicted::Image, 100);
    let data = [0u8; 40];
    let mut put = Put::image_at("u", &data, 200, 1);
    put.feed(&mut totals, &Reply::Failed);
    put.feed(&mut totals, &Reply::Count(1));
    assert_eq!(put.phase, Phase::Finished);
    assert_eq!(totals.image, 140);
}

#[test]
fn a_refused_write_leaves_the_total() {
    let mut totals = Totals::new();
    totals.store(Evicted::ViewCache, 10);
    let mut put = Put::view_at("k", &[1], None, 100, 1);
    put.feed(&mut totals, &Reply::NoRow);
    put.feed(&mut totals, &Reply::Failed);
    assert_eq!(put.phase, Phase::Rejected);
    assert_eq!(put.request(), None);
    assert_eq!(totals.view_cache, 10);
}

#[test]
fn sums_out_of_range_are_told_beforehand() {
    let mut totals = Totals::new();
    totals.store(Evicted::ViewCache, i64::MAX);
    let mut put = Put::view_at("k", &[1], None, 100, 1);
    put.feed(&mut totals, &Reply::NoRow);
    assert!(!put.in_range(&totals, &Reply::Count(1)));
    assert!(put.in_range(&totals, &Reply::Failed));
    assert!(put.in_range(&Totals::new(), &Reply::Count(1)));
    let mut unbudgeted = Put::view_at("k", &[1], None, 0, 1);
    unbudgeted.feed(&mut totals, &Reply::NoRow);
    assert!(!unbudgeted.in_range(&totals, &Reply::Count(1)));
    put.phase = Phase::Writing { replaced: i64::MIN };
    assert!(!put.in_range(&Totals::new(), &Reply::Count(1)));
    put.phase = Phase::Deleting { total: i64::MIN + 1, rowid: 1, bytes: 2 };
    assert!(!put.in_range(&totals, &Reply::Count(1)));
    assert!(put.in_range(&totals, &Reply::Count(0)));
}
