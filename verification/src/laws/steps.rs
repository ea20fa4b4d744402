//! What each answer of the database does to an operation, for every answer that there is.

use vstd::prelude::*;

use crate::cell::CellView;
use crate::command::CommandView;
use crate::fetch::{found_blob, FetchPhaseView, FetchView};
use crate::history::{HistoryScanView, ScanPhase};
use crate::open::{database_name, setup, stamped_version, OpenPhaseView};
use crate::protocol::{ReplyView, RequestView};
use crate::put::{
    changed_some, enforced, measured_total, oldest, replaced_bytes, settled, Phase, PutView,
};
use crate::tables::Evicted;
use crate::totals::{Totals, UNKNOWN_TOTAL};

verus! {

/// Whether an answer is a row with this number in this column.
pub open spec fn tells(reply: ReplyView, column: int, number: i64) -> bool {
    reply matches ReplyView::Row(cells) && 0 <= column < cells.len() && cells[column]
        == CellView::Integer(number)
}

/// Whether an answer is a row with this blob in its first column.
pub open spec fn brings(reply: ReplyView, blob: Seq<u8>) -> bool {
    reply matches ReplyView::Row(cells) && cells.len() > 0 && cells[0] == CellView::Blob(blob)
}

/// Whether two sets of totals differ at most in the total of `table`, which is now `total`.
pub open spec fn only_total_became(
    before: Totals,
    table: Evicted,
    total: int,
    after: Totals,
) -> bool {
    match table {
        Evicted::Image => after.image == total && after.view_cache == before.view_cache,
        Evicted::ViewCache => after.view_cache == total && after.image == before.image,
    }
}

/// Sizes and ids are taken from the columns of an answer, and from nothing else: a row
/// that is replaced counts 0 where no size is told, a total is not known where none is
/// told, and there is no oldest row where either number is missing. A row was deleted
/// where the database counts one, and only there.
pub proof fn law_answers_are_taken_as_told(reply: ReplyView, a: i64, b: i64)
    ensures
        tells(reply, 0, a) ==> replaced_bytes(reply) == a,
        (forall|n: i64| !tells(reply, 0, n)) ==> replaced_bytes(reply) == 0,
        measured_total(reply) == Some(a) <==> tells(reply, 0, a),
        oldest(reply) == Some((a, b)) <==> tells(reply, 0, a) && tells(reply, 1, b),
        changed_some(reply) <==> reply is Count && reply != ReplyView::Count(0),
        found_blob(reply) is Some ==> brings(reply, found_blob(reply)->0),
{
    if let ReplyView::Row(cells) = reply {
        if cells.len() > 0 && cells[0] is Integer {
            assert(tells(reply, 0, cells[0]->Integer_0));
        }
    }
}

/// Budgets, for every total and every change: a total that is not known stays so, and is
/// measured only for the sake of a budget. A known total moves by exactly the change. It
/// is kept at once unless there is a budget that it is over; then rows are evicted first.
/// The other table's total never moves.
pub proof fn law_budget_decision(totals: Totals, table: Evicted, delta: i64, budget_bytes: i64)
    requires
        totals.of(table) != UNKNOWN_TOTAL ==> i64::MIN <= totals.of(table) + delta <= i64::MAX,
    ensures
        ({
            let (phase, after) = enforced(totals, table, delta, budget_bytes);
            let total = if table is Image {
                totals.image
            } else {
                totals.view_cache
            };
            if total == -1 {
                &&& after == totals
                &&& budget_bytes > 0 ==> phase is Measuring
                &&& budget_bytes <= 0 ==> phase is Finished
            } else if budget_bytes > 0 && total + delta > budget_bytes {
                &&& after == totals
                &&& phase matches Phase::Choosing { total: over } && over == total + delta
            } else {
                &&& only_total_became(totals, table, total + delta, after)
                &&& phase is Finished
            }
        }),
{
}

/// What is left to do with a total: nothing but keeping it where it is within the budget,
/// evicting where it is over.
pub proof fn law_total_decision(totals: Totals, table: Evicted, total: i64, budget_bytes: i64)
    ensures
        total > budget_bytes ==> settled(totals, table, total, budget_bytes) == (
            Phase::Choosing { total },
            totals,
        ),
        total <= budget_bytes ==> settled(totals, table, total, budget_bytes).0 is Finished
            && only_total_became(
            totals,
            table,
            total as int,
            settled(totals, table, total, budget_bytes).1,
        ),
{
}

/// A write asks for what its phase is about, of its own table, key, blob and time.
pub proof fn law_write_asks(put: PutView)
    ensures
        match put.phase {
            Phase::Sizing => put.request() == Some(
                RequestView::Query(CommandView::RowBytes { table: put.table, key: put.key }),
            ),
            Phase::Writing { .. } => put.request() == Some(
                RequestView::Execute(
                    CommandView::Put {
                        table: put.table,
                        key: put.key,
                        data: put.data,
                        etag: put.etag,
                        now: put.now,
                    },
                ),
            ),
            Phase::Measuring => put.request() == Some(
                RequestView::Query(CommandView::SumBytes { table: put.table }),
            ),
            Phase::Choosing { .. } => put.request() == Some(
                RequestView::Query(CommandView::OldestRow { table: put.table }),
            ),
            Phase::Deleting { rowid, .. } => put.request() == Some(
                RequestView::Execute(CommandView::DeleteRow { table: put.table, rowid }),
            ),
            Phase::Finished => put.request() is None,
            Phase::Rejected => put.request() is None,
        },
{
}

/// An answer moves a write from phase to phase and changes nothing else of it; a write that
/// is over stays so, and the totals with it.
pub proof fn law_answer_moves_the_phase_only(put: PutView, totals: Totals, reply: ReplyView)
    ensures
        put.fed(totals, reply).table == put.table,
        put.fed(totals, reply).key == put.key,
        put.fed(totals, reply).data == put.data,
        put.fed(totals, reply).etag == put.etag,
        put.fed(totals, reply).budget_bytes == put.budget_bytes,
        put.fed(totals, reply).now == put.now,
        put.fed(totals, reply).phase == put.next(totals, reply).0,
        put.phase is Finished || put.phase is Rejected ==> put.next(totals, reply) == (
            put.phase,
            totals,
        ),
{
}

/// Once the replaced row was asked for, the row is written, whatever was answered: the row
/// that it replaces counts what the database told of it, and 0 otherwise.
pub proof fn law_sizing_leads_to_writing(put: PutView, totals: Totals, reply: ReplyView, size: i64)
    requires
        put.phase is Sizing,
    ensures
        put.next(totals, reply).1 == totals,
        put.next(totals, reply).0 is Writing,
        tells(reply, 0, size) ==> put.next(totals, reply).0 == (Phase::Writing { replaced: size }),
        (forall|n: i64| !tells(reply, 0, n)) ==> put.next(totals, reply).0 == (Phase::Writing {
            replaced: 0,
        }),
{
    law_answers_are_taken_as_told(reply, size, 0);
}

/// A row that was refused ends the write, with the totals as they were. A row that was
/// taken moves a known total by its size less that of the row it replaced.
pub proof fn law_writing_leads_to_the_budget(
    put: PutView,
    totals: Totals,
    reply: ReplyView,
    replaced: i64,
)
    requires
        put.phase == (Phase::Writing { replaced }),
        put.data.len() <= i64::MAX,
        i64::MIN <= put.data.len() - replaced <= i64::MAX,
        totals.of(put.table) != UNKNOWN_TOTAL ==> i64::MIN <= totals.of(put.table)
            + put.data.len() - replaced <= i64::MAX,
    ensures
        ({
            let (phase, after) = put.next(totals, reply);
            let known = if put.table is Image {
                totals.image
            } else {
                totals.view_cache
            };
            let total = known + put.data.len() - replaced;
            if reply is Failed {
                phase is Rejected && after == totals
            } else if known == -1 {
                &&& after == totals
                &&& put.budget_bytes > 0 ==> phase is Measuring
                &&& put.budget_bytes <= 0 ==> phase is Finished
            } else if put.budget_bytes > 0 && total > put.budget_bytes {
                &&& after == totals
                &&& phase matches Phase::Choosing { total: over } && over == total
            } else {
                &&& only_total_became(totals, put.table, total, after)
                &&& phase is Finished
            }
        }),
{
}

/// A table that was measured has the total that was told; one whose total is not told stays
/// unmeasured, and the write is over.
pub proof fn law_measuring_leads_to_the_total(
    put: PutView,
    totals: Totals,
    reply: ReplyView,
    total: i64,
)
    requires
        put.phase is Measuring,
    ensures
        tells(reply, 0, total) && total > put.budget_bytes ==> put.next(totals, reply) == (
            Phase::Choosing { total },
            totals,
        ),
        tells(reply, 0, total) && total <= put.budget_bytes ==> put.next(totals, reply).0 is Finished
            && only_total_became(totals, put.table, total as int, put.next(totals, reply).1),
        (forall|n: i64| !tells(reply, 0, n)) ==> put.next(totals, reply) == (
            Phase::Finished,
            totals,
        ),
{
    law_answers_are_taken_as_told(reply, total, 0);
    if let Some(told) = measured_total(reply) {
        law_answers_are_taken_as_told(reply, told, 0);
    }
}

/// The row that is deleted is the one that was told to be the oldest. Where none is told,
/// eviction stops, and the total is kept as it is.
pub proof fn law_choosing_leads_to_deleting(
    put: PutView,
    totals: Totals,
    reply: ReplyView,
    total: i64,
    rowid: i64,
    bytes: i64,
)
    requires
        put.phase == (Phase::Choosing { total }),
    ensures
        tells(reply, 0, rowid) && tells(reply, 1, bytes) ==> put.next(totals, reply) == (
            Phase::Deleting { total, rowid, bytes },
            totals,
        ),
        (forall|a: i64, b: i64| !(#[trigger] tells(reply, 0, a) && #[trigger] tells(reply, 1, b)))
            ==> put.next(totals, reply).0 is Finished && only_total_became(
            totals,
            put.table,
            total as int,
            put.next(totals, reply).1,
        ),
{
    law_answers_are_taken_as_told(reply, rowid, bytes);
    if let Some((a, b)) = oldest(reply) {
        law_answers_are_taken_as_told(reply, a, b);
    }
}

/// A row that was deleted comes off the total, and eviction goes on while that is over the
/// budget. Where nothing was deleted, eviction stops, and the total is kept as it is.
pub proof fn law_deleting_leads_to_the_rest(
    put: PutView,
    totals: Totals,
    reply: ReplyView,
    total: i64,
    rowid: i64,
    bytes: i64,
)
    requires
        put.phase == (Phase::Deleting { total, rowid, bytes }),
        i64::MIN <= total - bytes <= i64::MAX,
    ensures
        ({
            let (phase, after) = put.next(totals, reply);
            if reply is Count && reply != ReplyView::Count(0) {
                if total - bytes > put.budget_bytes {
                    &&& after == totals
                    &&& phase matches Phase::Choosing { total: rest } && rest == total - bytes
                } else {
                    phase is Finished && only_total_became(totals, put.table, total - bytes, after)
                }
            } else {
                phase is Finished && only_total_became(totals, put.table, total as int, after)
            }
        }),
{
}

/// A write can go on exactly where the numbers that it forms are numbers: the change that a
/// row makes, the total with it, and the total without a deleted row.
pub proof fn law_in_range_is_exact(put: PutView, totals: Totals, reply: ReplyView)
    requires
        put.data.len() <= i64::MAX,
    ensures
        put.in_range(totals, reply) <==> match put.phase {
            Phase::Writing { replaced } => {
                ||| reply is Failed
                ||| {
                    let known = if put.table is Image {
                        totals.image
                    } else {
                        totals.view_cache
                    };
                    &&& i64::MIN <= put.data.len() - replaced <= i64::MAX
                    &&& known == -1 || i64::MIN <= known + put.data.len() - replaced <= i64::MAX
                }
            },
            Phase::Deleting { total, rowid, bytes } => {
                ||| !(reply is Count) || reply == ReplyView::Count(0)
                ||| i64::MIN <= total - bytes <= i64::MAX
            },
            _ => true,
        },
{
}

/// A read looks its key up in its table; it bumps exactly what it has found, at the time it
/// was found; and it gives back what it has found whatever came of that.
pub proof fn law_read_step(fetch: FetchView, reply: ReplyView, now: i64, blob: Seq<u8>)
    ensures
        fetch.fed(reply, now).table == fetch.table,
        fetch.fed(reply, now).key == fetch.key,
        match fetch.phase {
            FetchPhaseView::Looking => {
                &&& fetch.request() == Some(
                    RequestView::Query(CommandView::Select { table: fetch.table, key: fetch.key }),
                )
                &&& fetch.found() is None
                &&& brings(reply, blob) ==> fetch.fed(reply, now).phase == (
                FetchPhaseView::Touching { data: blob, now })
                &&& (forall|b: Seq<u8>| !brings(reply, b)) ==> fetch.fed(reply, now).phase == (
                FetchPhaseView::Done { found: None })
            },
            FetchPhaseView::Touching { data, now: at } => {
                &&& fetch.request() == Some(
                    RequestView::Execute(
                        CommandView::Touch { table: fetch.table, key: fetch.key, now: at },
                    ),
                )
                &&& fetch.found() == Some(data)
                &&& fetch.fed(reply, now).phase == (FetchPhaseView::Done { found: Some(data) })
            },
            FetchPhaseView::Done { found } => {
                &&& fetch.request() is None
                &&& fetch.found() == found
                &&& fetch.fed(reply, now) == fetch
            },
        },
        FetchView::fresh(fetch.table, fetch.key).phase == FetchPhaseView::Looking,
        FetchView::fresh(fetch.table, fetch.key).table == fetch.table,
        FetchView::fresh(fetch.table, fetch.key).key == fetch.key,
{
    if let Some(found) = found_blob(reply) {
        law_answers_are_taken_as_told(reply, 0, 0);
        assert(brings(reply, found));
    }
}

/// A scan runs its query once and then goes from row to row. Each row with a blob adds that
/// blob at the end, a row without one adds nothing, and anything but a row ends the scan
/// with what it has.
pub proof fn law_scan_step(scan: HistoryScanView, reply: ReplyView, blob: Seq<u8>)
    ensures
        HistoryScanView::fresh().phase is Starting,
        HistoryScanView::fresh().entries.len() == 0,
        scan.phase is Starting ==> scan.request() == Some(
            RequestView::Query(CommandView::SelectHistory),
        ),
        scan.phase is Scanning ==> scan.request() == Some(RequestView::NextRow),
        scan.phase is Done ==> scan.request() is None && scan.fed(reply) == scan,
        !(scan.phase is Done) && reply is Row ==> scan.fed(reply).phase is Scanning,
        !(scan.phase is Done) && brings(reply, blob) ==> scan.fed(reply).entries
            == scan.entries.push(blob),
        (forall|b: Seq<u8>| !brings(reply, b)) ==> scan.fed(reply).entries == scan.entries,
        !(reply is Row) ==> scan.fed(reply).phase is Done && scan.fed(reply).entries
            == scan.entries,
{
    if let Some(found) = found_blob(reply) {
        law_answers_are_taken_as_told(reply, 0, 0);
        assert(brings(reply, found));
    }
}

/// A database is opened by the text of its path, whatever the text is, and only a path
/// without one opens an ephemeral database.
pub proof fn law_path_names_the_database(text: Seq<char>)
    ensures
        database_name(Some(text)) == text,
        database_name(None) == ":memory:"@,
{
}

/// The version is the number that the database tells. It is 0 where there is no row, or no
/// number in it, and not to be had where the database fails or the row has no column.
pub proof fn law_version_is_taken_as_told(reply: ReplyView, version: i64)
    ensures
        tells(reply, 0, version) ==> stamped_version(reply) == Some(version),
        reply is NoRow ==> stamped_version(reply) == Some(0i64),
        (reply matches ReplyView::Row(cells) && cells.len() > 0 && !(cells[0] is Integer))
            ==> stamped_version(reply) == Some(0i64),
        (reply matches ReplyView::Row(cells) && cells.len() == 0) ==> stamped_version(reply) is None,
        reply is Failed ==> stamped_version(reply) is None,
        reply is Count ==> stamped_version(reply) == Some(0i64),
{
}

/// The setup of a database of another version drops both cached tables and then does what
/// the setup of a database of this version does: create and index every table, the history
/// among them, and stamp the version last. It never drops the history.
pub proof fn law_setup_is_complete(version: i64)
    ensures
        setup(1) == seq![
            CommandView::CreateTable { table: Evicted::ViewCache },
            CommandView::CreateTable { table: Evicted::Image },
            CommandView::IndexTable { table: Evicted::ViewCache },
            CommandView::IndexTable { table: Evicted::Image },
            CommandView::CreateHistory,
            CommandView::IndexHistory,
            CommandView::StampVersion,
        ],
        version != 1 ==> setup(version) == seq![
            CommandView::DropTable { table: Evicted::ViewCache },
            CommandView::DropTable { table: Evicted::Image },
        ] + setup(1),
{
}

/// An opening reads the version, runs the statements of the setup for that version one by
/// one, in order, and is ready after the last. The first that fails makes it fail.
pub proof fn law_opening_step(phase: OpenPhaseView, reply: ReplyView, version: i64)
    ensures
        match phase {
            OpenPhaseView::Reading => {
                &&& phase.request() == Some(RequestView::Query(CommandView::ReadVersion))
                &&& stamped_version(reply) == Some(version) ==> phase.fed(reply) == (
                OpenPhaseView::Running { steps: setup(version), done: 0 })
                &&& stamped_version(reply) is None ==> phase.fed(reply) is Failed
            },
            OpenPhaseView::Running { steps, done } => 0 <= done < steps.len() ==> {
                &&& phase.request() == Some(RequestView::Execute(steps[done]))
                &&& reply is Failed ==> phase.fed(reply) is Failed
                &&& !(reply is Failed) && done == steps.len() - 1 ==> phase.fed(reply) is Ready
                &&& !(reply is Failed) && done < steps.len() - 1 ==> phase.fed(reply) == (
                OpenPhaseView::Running { steps, done: done + 1 })
            },
            OpenPhaseView::Ready => phase.request() is None && phase.fed(reply) is Ready,
            OpenPhaseView::Failed => phase.request() is None && phase.fed(reply) is Failed,
        },
{
}

} // verus!
