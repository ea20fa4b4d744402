//! What a write does to its table and to the live totals.

use vstd::prelude::*;

use crate::laws::sums::{
    lemma_bytes_within_total, lemma_total_insert, lemma_total_nonnegative, lemma_total_part,
    lemma_total_remove,
};
use crate::model::{
    answers, bytes_at, is_oldest, may_get_rowid, sound, stored_row, total_bytes, Cache, Store,
};
use crate::protocol::ReplyView;
use crate::put::{changed_some, settled, Phase, PutView};
use crate::tables::Evicted;
use crate::totals::{Totals, UNKNOWN_TOTAL};

verus! {

/// A write under way.
pub struct PutState {
    pub put: PutView,
    pub totals: Totals,
    pub store: Store,
}

/// Whether the database's answer takes one state to the next.
pub open spec fn put_step(before: PutState, reply: ReplyView, after: PutState) -> bool {
    &&& before.put.request() is Some
    &&& answers(before.store, before.put.request()->0, reply, after.store)
    &&& before.put.in_range(before.totals, reply)
    &&& after.put == before.put.fed(before.totals, reply)
    &&& after.totals == before.put.next(before.totals, reply).1
}

/// Whether a write goes through these states, from its beginning.
pub open spec fn put_run(states: Seq<PutState>, replies: Seq<ReplyView>) -> bool {
    &&& states.len() == replies.len() + 1
    &&& states[0].put.phase is Sizing
    &&& forall|i: int|
        0 <= i < replies.len() ==> #[trigger] put_step(states[i], replies[i], states[i + 1])
}

/// Whether a write goes through these states, from its beginning to its end.
pub open spec fn put_ran(states: Seq<PutState>, replies: Seq<ReplyView>) -> bool {
    &&& put_run(states, replies)
    &&& states.last().put.request() is None
}

/// Whether the database reported no error.
pub open spec fn clean(replies: Seq<ReplyView>) -> bool {
    forall|i: int| 0 <= i < replies.len() ==> !(#[trigger] replies[i] is Failed)
}

/// Whether every total that is known is that of its table.
pub open spec fn exact(totals: Totals, store: Store) -> bool {
    forall|table: Evicted|
        #![trigger totals.of(table)]
        totals.of(table) == UNKNOWN_TOTAL || totals.of(table) == total_bytes(store.rows(table))
}

/// Whether no total that is known is less than that of its table.
pub open spec fn covers(totals: Totals, store: Store) -> bool {
    forall|table: Evicted|
        #![trigger totals.of(table)]
        totals.of(table) == UNKNOWN_TOTAL || totals.of(table) >= total_bytes(store.rows(table))
}

/// Whether `written` are the rows of a table that held `before`, once the row was
/// written and before any was evicted.
pub open spec fn is_written(before: Cache, put: PutView, written: Cache) -> bool {
    exists|rowid: i64| #[trigger]
        may_get_rowid(before, put.key, rowid) && written == before.insert(
            put.key,
            stored_row(put.table, rowid, put.data, put.etag, put.now),
        )
}

/// Whether `after` is what is left of `written` when rows were evicted oldest first.
pub open spec fn evicted_oldest_first(written: Cache, after: Cache) -> bool {
    &&& after.submap_of(written)
    &&& forall|gone: Seq<char>, kept: Seq<char>|
        #![trigger written.contains_key(gone), after.contains_key(kept)]
        written.contains_key(gone) && !after.contains_key(gone) && after.contains_key(kept)
            ==> written[gone].accessed_at <= after[kept].accessed_at
}

/// Whether the last row that was evicted, the newest of those that were, had to go; if
/// any row was evicted at all.
pub open spec fn evicted_no_more_than_needed(
    written: Cache,
    after: Cache,
    budget_bytes: i64,
) -> bool {
    after == written || exists|last: Seq<char>|
        {
            &&& #[trigger] written.contains_key(last)
            &&& !after.contains_key(last)
            &&& total_bytes(after) + written[last].bytes > budget_bytes
            &&& forall|gone: Seq<char>| #[trigger]
                written.contains_key(gone) && !after.contains_key(gone)
                    ==> written[gone].accessed_at <= written[last].accessed_at
        }
}

/// What holds throughout a write that found the database in the state `start`: the
/// rows that it leaves before it evicts any are `written`, and `unfailing` says
/// whether no answer was an error.
spec fn holds(start: PutState, written: Cache, unfailing: bool, now: PutState) -> bool {
    let table = start.put.table;
    let budget = start.put.budget_bytes;
    let rows = now.store.rows(table);
    let total = now.totals.of(table);
    &&& now.put == PutView { phase: now.put.phase, ..start.put }
    &&& now.store == start.store.with_cached(table, now.store.cached(table))
    &&& now.store.cached(table) is Some
    &&& sound(rows)
    &&& match now.put.phase {
        Phase::Sizing => now.store == start.store && now.totals == start.totals,
        Phase::Writing { replaced } => {
            &&& now.store == start.store
            &&& now.totals == start.totals
            &&& 0 <= replaced <= bytes_at(start.store.rows(table), start.put.key)
            &&& unfailing ==> replaced == bytes_at(start.store.rows(table), start.put.key)
        },
        Phase::Measuring => {
            &&& is_written(start.store.rows(table), start.put, written)
            &&& rows == written
            &&& now.totals == start.totals
            &&& budget > 0
            &&& start.totals.of(table) == UNKNOWN_TOTAL
        },
        Phase::Choosing { total } => {
            &&& evicting(start, written, unfailing, now, total)
            &&& total > budget
        },
        Phase::Deleting { total, rowid, bytes } => {
            &&& evicting(start, written, unfailing, now, total)
            &&& total > budget
            &&& exists|key: Seq<char>| #[trigger]
                is_oldest(rows, key) && rows[key].rowid == rowid && rows[key].bytes == bytes
        },
        Phase::Finished => {
            &&& is_written(start.store.rows(table), start.put, written)
            &&& evicted_oldest_first(written, rows)
            &&& unfailing && counted(start) ==> evicted_no_more_than_needed(written, rows, budget)
            &&& budget <= 0 ==> rows == written
            &&& {
                ||| {
                    &&& budget <= 0 || !unfailing
                    &&& rows == written
                    &&& now.totals == start.totals
                    &&& start.totals.of(table) == UNKNOWN_TOTAL
                }
                ||| {
                    &&& now.totals == start.totals.with(table, total)
                    &&& covered(start) ==> total >= total_bytes(rows)
                    &&& covered(start) && unfailing && budget > 0 ==> total_bytes(rows) <= budget
                    &&& unfailing && counted(start) ==> total == total_bytes(rows)
                }
            }
        },
        Phase::Rejected => now.store == start.store && now.totals == start.totals && !unfailing,
    }
}

/// Whether the total of the table that is written to is not known or that of the table.
spec fn counted(start: PutState) -> bool {
    start.totals.of(start.put.table) == UNKNOWN_TOTAL || start.totals.of(start.put.table)
        == total_bytes(start.store.rows(start.put.table))
}

/// Whether the total of the table that is written to is not known or not less than that
/// of the table.
spec fn covered(start: PutState) -> bool {
    start.totals.of(start.put.table) == UNKNOWN_TOTAL || start.totals.of(start.put.table)
        >= total_bytes(start.store.rows(start.put.table))
}

/// What holds while rows are evicted.
spec fn evicting(
    start: PutState,
    written: Cache,
    unfailing: bool,
    now: PutState,
    total: i64,
) -> bool {
    let table = start.put.table;
    let rows = now.store.rows(table);
    &&& is_written(start.store.rows(table), start.put, written)
    &&& evicted_oldest_first(written, rows)
    &&& unfailing && counted(start) ==> evicted_no_more_than_needed(
        written,
        rows,
        start.put.budget_bytes,
    )
    &&& now.totals == start.totals
    &&& start.put.budget_bytes > 0
    &&& covered(start) ==> total >= total_bytes(rows)
    &&& unfailing && counted(start) ==> total == total_bytes(rows)
}

/// Whether the laws on writes speak of a write that begins in this state: the tables
/// are sound, and the blob is no bigger than any blob can be.
pub open spec fn well_begun(start: PutState) -> bool {
    &&& start.store.sound()
    &&& start.put.data.len() <= i64::MAX
}

/// Writing a row keeps a table sound.
proof fn lemma_written_sound(before: Cache, put: PutView, written: Cache)
    requires
        sound(before),
        is_written(before, put, written),
        put.data.len() <= i64::MAX,
    ensures
        sound(written),
        total_bytes(written) == total_bytes(before) + put.data.len() - bytes_at(before, put.key),
{
    let rowid = choose|rowid: i64| #[trigger]
        may_get_rowid(before, put.key, rowid) && written == before.insert(
            put.key,
            stored_row(put.table, rowid, put.data, put.etag, put.now),
        );
    let row = stored_row(put.table, rowid, put.data, put.etag, put.now);
    lemma_total_insert(before, put.key, row);
    assert forall|a: Seq<char>, b: Seq<char>| #[trigger]
        written.contains_key(a) && #[trigger] written.contains_key(b) && written[a].rowid
            == written[b].rowid implies a == b by {
        if a != put.key {
            assert(before.contains_key(a));
        }
        if b != put.key {
            assert(before.contains_key(b));
        }
        if before.contains_key(put.key) && a != b {
            assert(before.contains_key(a) && before.contains_key(b));
        }
    }
    assert forall|key: Seq<char>| #[trigger] written.contains_key(key) implies written[key].bytes
        == written[key].data.len() by {
        if key != put.key {
            assert(before.contains_key(key));
        }
    }
}

/// Settling on a total keeps the invariant.
proof fn lemma_settled(
    start: PutState,
    written: Cache,
    unfailing: bool,
    now: PutState,
    total: i64,
)
    requires
        well_begun(start),
        now.put == (PutView { phase: now.put.phase, ..start.put }),
        now.store == start.store.with_cached(start.put.table, now.store.cached(start.put.table)),
        now.store.cached(start.put.table) is Some,
        sound(now.store.rows(start.put.table)),
        evicting(start, written, unfailing, PutState { totals: start.totals, ..now }, total),
        (now.put.phase, now.totals) == settled(
            start.totals,
            start.put.table,
            total,
            start.put.budget_bytes,
        ),
    ensures
        holds(start, written, unfailing, now),
{
}

/// A step keeps the invariant, once it is settled which rows the write leaves.
proof fn lemma_step(
    start: PutState,
    written: Cache,
    unfailing: bool,
    before: PutState,
    reply: ReplyView,
    after: PutState,
)
    requires
        well_begun(start),
        holds(start, written, unfailing, before),
        put_step(before, reply, after),
        before.put.phase is Writing && after.put.phase !is Rejected ==> written
            == after.store.rows(start.put.table),
    ensures
        holds(start, written, unfailing && !(reply is Failed), after),
{
    let table = start.put.table;
    let rows = before.store.rows(table);
    let left = after.store.rows(table);
    let still = unfailing && !(reply is Failed);
    match before.put.phase {
        Phase::Sizing => {
            lemma_bytes_within_total(rows, start.put.key);
        },
        Phase::Writing { replaced } => {
            if !(reply is Failed) {
                assert(is_written(rows, start.put, left));
                lemma_written_sound(rows, start.put, left);
            }
        },
        Phase::Measuring => {
            if !(reply is Failed) {
                lemma_settled(start, written, still, after, total_bytes(rows) as i64);
            }
        },
        Phase::Choosing { total } => {
            if reply is NoRow {
                assert(rows.dom() =~= Set::empty());
                assert(total_bytes(rows) == 0);
            }
        },
        Phase::Deleting { total, rowid, bytes } => {
            if changed_some(reply) {
                let key = choose|key: Seq<char>| #[trigger]
                    is_oldest(rows, key) && rows[key].rowid == rowid && rows[key].bytes == bytes;
                assert(left == rows.remove(key));
                lemma_total_remove(rows, key);
                assert(sound(left));
                assert(written.contains_key(key));
                lemma_settled(start, written, still, after, (total - bytes) as i64);
            } else if !(reply is Failed) {
                let key = choose|key: Seq<char>| #[trigger]
                    is_oldest(rows, key) && rows[key].rowid == rowid && rows[key].bytes == bytes;
                assert(rows.contains_key(key));
            }
        },
        _ => {},
    }
}

/// The rows that a write left before it evicted any, if it came that far.
spec fn left_by(states: Seq<PutState>) -> Cache {
    states[2].store.rows(states[0].put.table)
}

/// The invariant holds in every state of a run.
proof fn lemma_run(states: Seq<PutState>, replies: Seq<ReplyView>, i: int)
    requires
        put_run(states, replies),
        well_begun(states[0]),
        0 <= i <= replies.len(),
    ensures
        holds(states[0], left_by(states), clean(replies.take(i)), states[i]),
        states[i].put.phase is Sizing <==> i == 0,
        states[i].put.phase is Writing <==> i == 1,
    decreases i,
{
    if i > 0 {
        lemma_run(states, replies, i - 1);
        assert(put_step(states[i - 1], replies[i - 1], states[i - 1 + 1]));
        lemma_step(
            states[0],
            left_by(states),
            clean(replies.take(i - 1)),
            states[i - 1],
            replies[i - 1],
            states[i],
        );
        let now = replies.take(i);
        let before = replies.take(i - 1);
        assert(now[i - 1] == replies[i - 1]);
        assert(forall|j: int| 0 <= j < i - 1 ==> now[j] == before[j]);
        assert(clean(now) <==> clean(before) && !(replies[i - 1] is Failed)) by {
            if clean(before) && !(replies[i - 1] is Failed) {
                assert forall|j: int| 0 <= j < now.len() implies !(#[trigger] now[j] is Failed) by {
                    if j < i - 1 {
                        assert(!(before[j] is Failed));
                    }
                }
            }
            if clean(now) {
                assert forall|j: int| 0 <= j < before.len() implies !(
                #[trigger] before[j] is Failed) by {
                    assert(!(now[j] is Failed));
                }
                assert(!(now[i - 1] is Failed));
            }
        }
    }
}

/// The invariant holds at the end of a run.
proof fn lemma_ran(states: Seq<PutState>, replies: Seq<ReplyView>)
    requires
        put_ran(states, replies),
        well_begun(states[0]),
    ensures
        holds(states[0], left_by(states), clean(replies), states.last()),
        states.last().put.phase is Finished || states.last().put.phase is Rejected,
{
    lemma_run(states, replies, replies.len() as int);
    assert(replies.take(replies.len() as int) =~= replies);
}

/// A write concerns one row and one table. Whatever the database answers, the other
/// cached table, the play history, the version and the other total stay as they are,
/// and a row under another key stays as it is or goes. A write that the database
/// refuses changes nothing.
pub proof fn law_write_touches_its_row_only(
    states: Seq<PutState>,
    replies: Seq<ReplyView>,
    key: Seq<char>,
)
    requires
        put_ran(states, replies),
        well_begun(states[0]),
    ensures
        ({
            let start = states[0];
            let end = states.last();
            let table = start.put.table;
            &&& end.store == start.store.with_cached(table, end.store.cached(table))
            &&& end.totals == start.totals.with(table, end.totals.of(table))
            &&& key != start.put.key && end.store.rows(table).contains_key(key) ==> {
                &&& start.store.rows(table).contains_key(key)
                &&& end.store.rows(table)[key] == start.store.rows(table)[key]
            }
            &&& end.put.phase is Rejected ==> end.store == start.store && end.totals
                == start.totals
        }),
{
    lemma_ran(states, replies);
    let table = states[0].put.table;
    let rows = states.last().store.rows(table);
    if states.last().put.phase is Finished && rows.contains_key(key) {
        assert(rows.submap_of(left_by(states)));
        assert(left_by(states).dom().contains(key));
        assert(rows[key] == left_by(states)[key]);
    }
}

/// Eviction picks the least-recently-accessed rows: whatever the database answers, no
/// row that was evicted had been accessed later than a row that was kept.
pub proof fn law_evicts_oldest_first(states: Seq<PutState>, replies: Seq<ReplyView>)
    requires
        put_ran(states, replies),
        well_begun(states[0]),
        states.last().put.phase is Finished,
    ensures
        exists|written: Cache| #[trigger]
            is_written(
                states[0].store.rows(states[0].put.table),
                states[0].put,
                written,
            ) && evicted_oldest_first(written, states.last().store.rows(states[0].put.table)),
{
    lemma_ran(states, replies);
    assert(is_written(
        states[0].store.rows(states[0].put.table),
        states[0].put,
        left_by(states),
    ));
}

/// Eviction stops as soon as the table fits: where the totals were exact, the newest row
/// that went would have kept the table over its budget. In particular nothing goes
/// from a table that fits.
pub proof fn law_evicts_no_more_than_needed(states: Seq<PutState>, replies: Seq<ReplyView>)
    requires
        put_ran(states, replies),
        well_begun(states[0]),
        exact(states[0].totals, states[0].store),
        clean(replies),
    ensures
        exists|written: Cache| #[trigger]
            is_written(
                states[0].store.rows(states[0].put.table),
                states[0].put,
                written,
            ) && evicted_oldest_first(
                written,
                states.last().store.rows(states[0].put.table),
            ) && evicted_no_more_than_needed(
                written,
                states.last().store.rows(states[0].put.table),
                states[0].put.budget_bytes,
            ),
{
    lemma_ran(states, replies);
    assert(states[0].totals.of(states[0].put.table) == UNKNOWN_TOTAL || states[0].totals.of(
        states[0].put.table,
    ) == total_bytes(states[0].store.rows(states[0].put.table)));
    assert(is_written(
        states[0].store.rows(states[0].put.table),
        states[0].put,
        left_by(states),
    ));
}

/// Nothing is evicted without need: not where there is no budget, and not where the
/// totals are exact, the database reported no error and the table fits its budget with
/// the row.
pub proof fn law_evicts_nothing_without_need(states: Seq<PutState>, replies: Seq<ReplyView>)
    requires
        put_ran(states, replies),
        well_begun(states[0]),
        states.last().put.phase is Finished,
        states[0].put.budget_bytes <= 0 || {
            &&& exact(states[0].totals, states[0].store)
            &&& clean(replies)
            &&& total_bytes(states[0].store.rows(states[0].put.table)) + states[0].put.data.len()
                - bytes_at(states[0].store.rows(states[0].put.table), states[0].put.key)
                <= states[0].put.budget_bytes
        },
    ensures
        is_written(
            states[0].store.rows(states[0].put.table),
            states[0].put,
            states.last().store.rows(states[0].put.table),
        ),
{
    lemma_ran(states, replies);
    let start = states[0];
    let table = start.put.table;
    let written = left_by(states);
    let rows = states.last().store.rows(table);
    if start.put.budget_bytes > 0 {
        assert(start.totals.of(table) == UNKNOWN_TOTAL || start.totals.of(table) == total_bytes(
            start.store.rows(table),
        ));
        lemma_written_sound(start.store.rows(table), start.put, written);
        if rows != written {
            let last = choose|last: Seq<char>|
                {
                    &&& #[trigger] written.contains_key(last)
                    &&& !rows.contains_key(last)
                    &&& total_bytes(rows) + written[last].bytes > start.put.budget_bytes
                };
            let rest = written.remove(last);
            lemma_total_remove(written, last);
            assert(sound(rest));
            assert(rows.submap_of(rest));
            lemma_total_part(rows, rest);
        }
    }
}

/// The budget is kept: after a write with a budget on which the database reported no
/// error, the table fits it, provided that no total fell short before.
pub proof fn law_budget_is_kept(states: Seq<PutState>, replies: Seq<ReplyView>)
    requires
        put_ran(states, replies),
        well_begun(states[0]),
        covers(states[0].totals, states[0].store),
        states[0].put.budget_bytes > 0,
        clean(replies),
    ensures
        total_bytes(states.last().store.rows(states[0].put.table)) <= states[0].put.budget_bytes,
{
    lemma_ran(states, replies);
    assert(states[0].totals.of(states[0].put.table) == UNKNOWN_TOTAL || states[0].totals.of(
        states[0].put.table,
    ) >= total_bytes(states[0].store.rows(states[0].put.table)));
}

/// The live totals track replacement, not accumulation: a write on which the database
/// reported no error keeps them exact, and the tables sound, with a budget or without.
pub proof fn law_totals_stay_exact(states: Seq<PutState>, replies: Seq<ReplyView>)
    requires
        put_ran(states, replies),
        well_begun(states[0]),
        exact(states[0].totals, states[0].store),
        clean(replies),
    ensures
        exact(states.last().totals, states.last().store),
        states.last().store.sound(),
{
    lemma_ran(states, replies);
    let table = states[0].put.table;
    assert(states[0].totals.of(table) == UNKNOWN_TOTAL || states[0].totals.of(table)
        == total_bytes(states[0].store.rows(table)));
    assert(states[0].totals.of(table.other()) == UNKNOWN_TOTAL || states[0].totals.of(table.other())
        == total_bytes(states[0].store.rows(table.other())));
    assert forall|t: Evicted| #![trigger states.last().totals.of(t)]
        states.last().totals.of(t) == UNKNOWN_TOTAL || states.last().totals.of(t) == total_bytes(
        states.last().store.rows(t),
    ) by {
        assert(t == table || t == table.other());
    }
}

/// Errors never make the totals fall short: whatever the database answers, no total
/// that is known is less than that of its table, and the tables stay sound.
pub proof fn law_totals_never_fall_short(states: Seq<PutState>, replies: Seq<ReplyView>)
    requires
        put_ran(states, replies),
        well_begun(states[0]),
        covers(states[0].totals, states[0].store),
    ensures
        covers(states.last().totals, states.last().store),
        states.last().store.sound(),
{
    lemma_ran(states, replies);
    let table = states[0].put.table;
    assert(states[0].totals.of(table) == UNKNOWN_TOTAL || states[0].totals.of(table) >= total_bytes(
        states[0].store.rows(table),
    ));
    assert(states[0].totals.of(table.other()) == UNKNOWN_TOTAL || states[0].totals.of(table.other())
        >= total_bytes(states[0].store.rows(table.other())));
    assert forall|t: Evicted| #![trigger states.last().totals.of(t)]
        states.last().totals.of(t) == UNKNOWN_TOTAL || states.last().totals.of(t) >= total_bytes(
        states.last().store.rows(t),
    ) by {
        assert(t == table || t == table.other());
    }
}

/// The sums of a write can always be formed: with exact totals, and a blob that the
/// table has room for as far as numbers go, no answer that is not an error takes a sum
/// out of range.
pub proof fn law_sums_stay_in_range(
    states: Seq<PutState>,
    replies: Seq<ReplyView>,
    reply: ReplyView,
    after: Store,
)
    requires
        put_run(states, replies),
        well_begun(states[0]),
        exact(states[0].totals, states[0].store),
        clean(replies),
        total_bytes(states[0].store.rows(states[0].put.table)) + states[0].put.data.len()
            <= i64::MAX,
        states.last().put.request() is Some,
        answers(states.last().store, states.last().put.request()->0, reply, after),
    ensures
        states.last().put.in_range(states.last().totals, reply),
{
    lemma_run(states, replies, replies.len() as int);
    assert(replies.take(replies.len() as int) =~= replies);
    let start = states[0];
    let now = states.last();
    let table = start.put.table;
    let rows = now.store.rows(table);
    assert(start.totals.of(table) == UNKNOWN_TOTAL || start.totals.of(table) == total_bytes(
        start.store.rows(table),
    ));
    match now.put.phase {
        Phase::Writing { replaced } => {
            lemma_bytes_within_total(rows, start.put.key);
        },
        Phase::Deleting { total, rowid, bytes } => {
            let key = choose|key: Seq<char>| #[trigger]
                is_oldest(rows, key) && rows[key].rowid == rowid && rows[key].bytes == bytes;
            lemma_bytes_within_total(rows, key);
        },
        _ => {},
    }
}

/// How many requests a write makes at most from this state on.
spec fn requests_left(now: PutState) -> int {
    let rows = now.store.rows(now.put.table).dom().len() as int;
    match now.put.phase {
        Phase::Sizing => 2 * rows + 7,
        Phase::Writing { .. } => 2 * rows + 6,
        Phase::Measuring => 2 * rows + 3,
        Phase::Choosing { .. } => 2 * rows + 2,
        Phase::Deleting { .. } => 2 * rows + 1,
        Phase::Finished => 0,
        Phase::Rejected => 0,
    }
}

/// Every request brings a write closer to its end.
proof fn lemma_requests_left(states: Seq<PutState>, replies: Seq<ReplyView>, i: int)
    requires
        put_run(states, replies),
        well_begun(states[0]),
        0 <= i <= replies.len(),
    ensures
        requests_left(states[i]) + i <= requests_left(states[0]),
    decreases i,
{
    if i > 0 {
        lemma_requests_left(states, replies, i - 1);
        lemma_run(states, replies, i - 1);
        lemma_run(states, replies, i);
        assert(put_step(states[i - 1], replies[i - 1], states[i - 1 + 1]));
        let before = states[i - 1];
        let rows = before.store.rows(before.put.table);
        let left = states[i].store.rows(before.put.table);
        match before.put.phase {
            Phase::Writing { .. } => {
                if !(replies[i - 1] is Failed) {
                    assert(left.dom() =~= rows.dom().insert(before.put.key));
                }
            },
            Phase::Deleting { rowid, bytes, .. } => {
                if changed_some(replies[i - 1]) {
                    let key = choose|key: Seq<char>| #[trigger]
                        is_oldest(rows, key) && rows[key].rowid == rowid && rows[key].bytes
                            == bytes;
                    assert(left.dom() =~= rows.dom().remove(key));
                }
            },
            _ => {},
        }
    }
}

/// A write ends: whatever the database answers, it is over after at most two requests
/// per row of the table, and seven more.
pub proof fn law_write_ends(states: Seq<PutState>, replies: Seq<ReplyView>)
    requires
        put_run(states, replies),
        well_begun(states[0]),
    ensures
        replies.len() <= 2 * states[0].store.rows(states[0].put.table).dom().len() + 7,
{
    lemma_requests_left(states, replies, replies.len() as int);
}

/// The common write does no reads beyond sizing the row that it replaces: where the
/// total is known and the table fits with the new row, the write is over after two
/// requests, nothing is evicted, and the total changes by what the row changed.
pub proof fn law_fitting_write_reads_nothing(states: Seq<PutState>, replies: Seq<ReplyView>)
    requires
        put_ran(states, replies),
        well_begun(states[0]),
        clean(replies),
        states[0].totals.of(states[0].put.table) != UNKNOWN_TOTAL,
        states[0].totals.of(states[0].put.table) + states[0].put.data.len() - bytes_at(
            states[0].store.rows(states[0].put.table),
            states[0].put.key,
        ) <= states[0].put.budget_bytes,
        states[0].put.budget_bytes > 0,
    ensures
        replies.len() == 2,
        is_written(
            states[0].store.rows(states[0].put.table),
            states[0].put,
            states.last().store.rows(states[0].put.table),
        ),
        states.last().totals.of(states[0].put.table) == states[0].totals.of(states[0].put.table)
            + states[0].put.data.len() - bytes_at(
            states[0].store.rows(states[0].put.table),
            states[0].put.key,
        ),
{
    lemma_run(states, replies, 0);
    assert(put_step(states[0], replies[0], states[0int + 1]));
    lemma_run(states, replies, 1);
    assert(!(replies[0] is Failed));
    assert(clean(replies.take(1)));
    assert(put_step(states[1], replies[1], states[1int + 1]));
    assert(!(replies[1] is Failed));
    assert(states[2].put.phase is Finished);
    if replies.len() > 2 {
        assert(put_step(states[2], replies[2], states[2int + 1]));
    }
}

/// A table is measured once: a write measures only where the total is not known, and
/// the total is known after a write with a budget on which the database reported no
/// error, provided that no total fell short before.
pub proof fn law_measured_once(states: Seq<PutState>, replies: Seq<ReplyView>, i: int)
    requires
        put_run(states, replies),
        well_begun(states[0]),
        0 <= i < states.len(),
    ensures
        states[i].put.phase is Measuring ==> states[0].totals.of(states[0].put.table)
            == UNKNOWN_TOTAL,
        put_ran(states, replies) && clean(replies) && states[0].put.budget_bytes > 0 && covers(
            states[0].totals,
            states[0].store,
        ) ==> states.last().totals.of(states[0].put.table) != UNKNOWN_TOTAL,
{
    lemma_run(states, replies, i);
    if put_ran(states, replies) && clean(replies) && states[0].put.budget_bytes > 0 && covers(
        states[0].totals,
        states[0].store,
    ) {
        lemma_ran(states, replies);
        assert(states[0].totals.of(states[0].put.table) == UNKNOWN_TOTAL || states[0].totals.of(
            states[0].put.table,
        ) >= total_bytes(states[0].store.rows(states[0].put.table)));
        lemma_total_nonnegative(states.last().store.rows(states[0].put.table));
    }
}

} // verus!
