//! What a read gives back.

use vstd::prelude::*;

use crate::command::CommandView;
use crate::fetch::FetchView;
use crate::laws::budget::{
    clean, covers, evicted_no_more_than_needed, evicted_oldest_first, exact, is_written,
    law_evicts_no_more_than_needed, law_evicts_nothing_without_need, law_evicts_oldest_first, law_write_touches_its_row_only, put_ran, well_begun, PutState,
};
use crate::laws::sums::lemma_total_insert;
use crate::model::{answers, bytes_at, sound, total_bytes, Cache, CachedRow, Store};
use crate::protocol::{ReplyView, RequestView};
use crate::tables::Evicted;
use crate::totals::Totals;

verus! {

/// A read under way.
pub struct FetchState {
    pub fetch: FetchView,
    pub store: Store,
}

/// Whether the database's answer, at the time `now`, takes one state to the next.
pub open spec fn fetch_step(
    before: FetchState,
    reply: ReplyView,
    now: i64,
    after: FetchState,
) -> bool {
    &&& before.fetch.request() is Some
    &&& answers(before.store, before.fetch.request()->0, reply, after.store)
    &&& after.fetch == before.fetch.fed(reply, now)
}

/// Whether a read of `key` goes through these states, from its beginning to its end.
pub open spec fn fetch_ran(
    table: Evicted,
    key: Seq<char>,
    states: Seq<FetchState>,
    replies: Seq<ReplyView>,
    times: Seq<i64>,
) -> bool {
    &&& states.len() == replies.len() + 1
    &&& times.len() == replies.len()
    &&& states[0].fetch == FetchView::fresh(table, key)
    &&& states.last().fetch.request() is None
    &&& forall|i: int|
        0 <= i < replies.len() ==> #[trigger] fetch_step(
            states[i],
            replies[i],
            times[i],
            states[i + 1],
        )
}

/// The blob stored under `key`, if there is one.
pub open spec fn stored_blob(cache: Cache, key: Seq<char>) -> Option<Seq<u8>> {
    if cache.contains_key(key) {
        Some(cache[key].data)
    } else {
        None
    }
}

/// Whether every row under another key was accessed before `now`.
pub open spec fn is_newest(cache: Cache, key: Seq<char>, now: i64) -> bool {
    forall|other: Seq<char>| #[trigger]
        cache.contains_key(other) && other != key ==> cache[other].accessed_at < now
}

/// How a read runs.
proof fn lemma_fetch(
    table: Evicted,
    key: Seq<char>,
    states: Seq<FetchState>,
    replies: Seq<ReplyView>,
    times: Seq<i64>,
)
    requires
        fetch_ran(table, key, states, replies, times),
    ensures
        1 <= replies.len() <= 2,
        replies.len() == 1 ==> states.last().store == states[0].store,
        replies.len() == 1 ==> states.last().fetch.found() is None,
        replies.len() == 1 ==> replies[0] is Failed || !states[0].store.rows(table).contains_key(
            key,
        ),
        replies.len() == 2 ==> {
            &&& !(replies[0] is Failed)
            &&& states[1].store == states[0].store
            &&& states[0].store.cached(table) is Some
            &&& states[0].store.rows(table).contains_key(key)
            &&& states.last().fetch.found() == Some(states[0].store.rows(table)[key].data)
            &&& states[1].fetch.request() == Some(
                RequestView::Execute(
                    CommandView::Touch { table, key, now: times[0] },
                ),
            )
            &&& fetch_step(states[1], replies[1], times[1], states[2])
        },
{
    assert(states.len() > 1);
    assert(fetch_step(states[0], replies[0], times[0], states[0int + 1]));
    if replies.len() > 1 {
        assert(fetch_step(states[1], replies[1], times[1], states[1int + 1]));
        if replies.len() > 2 {
            assert(fetch_step(states[2], replies[2], times[2], states[2int + 1]));
        }
    }
}

/// A read gives back what is stored: the blob under its key where there is one, and
/// nothing where there is none. It gives back nothing where the lookup fails.
pub proof fn law_read_gives_what_is_stored(
    table: Evicted,
    key: Seq<char>,
    states: Seq<FetchState>,
    replies: Seq<ReplyView>,
    times: Seq<i64>,
)
    requires
        fetch_ran(table, key, states, replies, times),
    ensures
        replies.len() > 0,
        states.last().fetch.found() == if replies[0] is Failed {
            None
        } else {
            stored_blob(states[0].store.rows(table), key)
        },
{
    lemma_fetch(table, key, states, replies, times);
}

/// A read bumps the access time of the row that it finds, to the time at which it was
/// found, and changes nothing else; where nothing is found, or the bump fails, it
/// changes nothing at all.
pub proof fn law_read_bumps_its_row_only(
    table: Evicted,
    key: Seq<char>,
    states: Seq<FetchState>,
    replies: Seq<ReplyView>,
    times: Seq<i64>,
)
    requires
        fetch_ran(table, key, states, replies, times),
    ensures
        states.last().store == if states[0].store.rows(table).contains_key(key) && clean(replies) {
            states[0].store.with_rows(
                table,
                states[0].store.rows(table).insert(
                    key,
                    CachedRow { accessed_at: times[0], ..states[0].store.rows(table)[key] },
                ),
            )
        } else {
            states[0].store
        },
{
    lemma_fetch(table, key, states, replies, times);
    if replies.len() == 2 {
        if replies[1] is Failed {
            assert(!clean(replies));
        } else {
            assert(clean(replies));
        }
    } else if replies[0] is Failed {
        assert(!clean(replies));
    }
}

/// Reads do not change the sizes of tables: they keep the tables sound and the totals
/// exact, or covering.
pub proof fn law_read_keeps_totals(
    table: Evicted,
    key: Seq<char>,
    states: Seq<FetchState>,
    replies: Seq<ReplyView>,
    times: Seq<i64>,
    totals: Totals,
)
    requires
        fetch_ran(table, key, states, replies, times),
        states[0].store.sound(),
    ensures
        states.last().store.sound(),
        forall|t: Evicted| #[trigger]
            total_bytes(states.last().store.rows(t)) == total_bytes(states[0].store.rows(t)),
        exact(totals, states[0].store) ==> exact(totals, states.last().store),
        covers(totals, states[0].store) ==> covers(totals, states.last().store),
{
    law_read_bumps_its_row_only(table, key, states, replies, times);
    let rows = states[0].store.rows(table);
    if rows.contains_key(key) && clean(replies) {
        let row = CachedRow { accessed_at: times[0], ..rows[key] };
        let bumped = rows.insert(key, row);
        assert(sound(rows));
        lemma_total_insert(rows, key, row);
        assert(sound(bumped)) by {
            assert forall|a: Seq<char>, b: Seq<char>| #[trigger]
                bumped.contains_key(a) && #[trigger] bumped.contains_key(b) && bumped[a].rowid
                    == bumped[b].rowid implies a == b by {
                assert(rows.contains_key(a) && rows.contains_key(b));
            }
            assert forall|k: Seq<char>| #[trigger] bumped.contains_key(k) implies bumped[k].bytes
                == bumped[k].data.len() by {
                assert(rows.contains_key(k));
            }
        }
        assert(states.last().store.rows(table) == bumped);
        assert(states.last().store.rows(table.other()) == states[0].store.rows(table.other()));
    }
    assert forall|t: Evicted| #[trigger]
        total_bytes(states.last().store.rows(t)) == total_bytes(states[0].store.rows(t)) by {
        assert(t == table || t == table.other());
    }
}

/// A read gives back what was written last: after a write that the database took, a
/// read of the same key gives the blob of that write, or nothing where the row was
/// evicted. It was not evicted where there is no budget, nor, where the totals are exact
/// and the database reported no error, if the table fits its budget with the row, or if
/// the blob alone fits it and every other row was accessed before.
pub proof fn law_read_after_write(
    writes: Seq<PutState>,
    answers_to_write: Seq<ReplyView>,
    reads: Seq<FetchState>,
    answers_to_read: Seq<ReplyView>,
    times: Seq<i64>,
)
    requires
        put_ran(writes, answers_to_write),
        well_begun(writes[0]),
        writes.last().put.phase is Finished,
        fetch_ran(writes[0].put.table, writes[0].put.key, reads, answers_to_read, times),
        reads[0].store == writes.last().store,
        !(answers_to_read[0] is Failed),
    ensures
        reads.last().fetch.found() == if writes.last().store.rows(
            writes[0].put.table,
        ).contains_key(writes[0].put.key) {
            Some(writes[0].put.data)
        } else {
            None
        },
        writes[0].put.budget_bytes <= 0 ==> reads.last().fetch.found() == Some(writes[0].put.data),
        exact(writes[0].totals, writes[0].store) && clean(answers_to_write) && total_bytes(
            writes[0].store.rows(writes[0].put.table),
        ) + writes[0].put.data.len() - bytes_at(
            writes[0].store.rows(writes[0].put.table),
            writes[0].put.key,
        ) <= writes[0].put.budget_bytes ==> reads.last().fetch.found() == Some(writes[0].put.data),
        exact(writes[0].totals, writes[0].store) && clean(answers_to_write)
            && writes[0].put.data.len() <= writes[0].put.budget_bytes && is_newest(
            writes[0].store.rows(writes[0].put.table),
            writes[0].put.key,
            writes[0].put.now,
        ) ==> reads.last().fetch.found() == Some(writes[0].put.data),
{
    let put = writes[0].put;
    let before = writes[0].store.rows(put.table);
    let rows = writes.last().store.rows(put.table);
    law_read_gives_what_is_stored(put.table, put.key, reads, answers_to_read, times);
    law_evicts_oldest_first(writes, answers_to_write);
    let written = choose|written: Cache| #[trigger]
        is_written(before, put, written) && evicted_oldest_first(written, rows);
    if rows.contains_key(put.key) {
        assert(rows.submap_of(written));
        assert(written.dom().contains(put.key));
        assert(rows[put.key] == written[put.key]);
    }
    if put.budget_bytes <= 0 || (exact(writes[0].totals, writes[0].store) && clean(answers_to_write)
        && total_bytes(before) + put.data.len() - bytes_at(before, put.key) <= put.budget_bytes) {
        law_evicts_nothing_without_need(writes, answers_to_write);
    }
    if exact(writes[0].totals, writes[0].store) && clean(answers_to_write) && put.data.len()
        <= put.budget_bytes && is_newest(before, put.key, put.now) && !rows.contains_key(put.key) {
        law_evicts_no_more_than_needed(writes, answers_to_write);
        let written = choose|written: Cache| #[trigger]
            is_written(before, put, written) && evicted_oldest_first(written, rows)
                && evicted_no_more_than_needed(written, rows, put.budget_bytes);
        assert(written.contains_key(put.key));
        let last = choose|last: Seq<char>|
            {
                &&& #[trigger] written.contains_key(last)
                &&& !rows.contains_key(last)
                &&& total_bytes(rows) + written[last].bytes > put.budget_bytes
                &&& forall|gone: Seq<char>| #[trigger]
                    written.contains_key(gone) && !rows.contains_key(gone)
                        ==> written[gone].accessed_at <= written[last].accessed_at
            };
        assert(last == put.key) by {
            if last != put.key {
                assert(before.contains_key(last));
            }
        }
        assert forall|kept: Seq<char>| !rows.contains_key(kept) by {
            if rows.contains_key(kept) {
                assert(rows.submap_of(written));
                assert(written.dom().contains(kept));
                assert(before.contains_key(kept));
            }
        }
        assert(rows.dom() =~= Set::empty());
    }
}

/// A write does not change what other reads give back: after it, whatever the database
/// answered to it, a read of another key of the same table gives what was stored there
/// before, or nothing where the row was evicted, and a read from the other table gives
/// what was stored there before.
pub proof fn law_read_after_another_write(
    writes: Seq<PutState>,
    answers_to_write: Seq<ReplyView>,
    table: Evicted,
    key: Seq<char>,
    reads: Seq<FetchState>,
    answers_to_read: Seq<ReplyView>,
    times: Seq<i64>,
)
    requires
        put_ran(writes, answers_to_write),
        well_begun(writes[0]),
        table != writes[0].put.table || key != writes[0].put.key,
        fetch_ran(table, key, reads, answers_to_read, times),
        reads[0].store == writes.last().store,
        !(answers_to_read[0] is Failed),
    ensures
        reads.last().fetch.found() == stored_blob(writes[0].store.rows(table), key) || (table
            == writes[0].put.table && !writes.last().store.rows(table).contains_key(key)
            && reads.last().fetch.found() is None),
{
    law_read_gives_what_is_stored(table, key, reads, answers_to_read, times);
    law_write_touches_its_row_only(writes, answers_to_write, key);
}

} // verus!
