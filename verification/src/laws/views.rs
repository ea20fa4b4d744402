//! What the values of the library say: nothing is lost or changed between a value and
//! what the contracts say of it.

use std::time::{Duration, SystemTime};

use vstd::prelude::*;

use crate::cell::{blob_at, cells_view, integer_at, Cell, CellView};
use crate::clock::{elapsed, seconds_at, timestamp_of, whole_secs};
use crate::command::{text_view, Command};
use crate::fetch::{blob_view, Fetch, FetchPhase, FetchPhaseView};
use crate::history::{blobs_view, HistoryScan};
use crate::open::{commands_view, OpenPhase, OpenPhaseView};
use crate::protocol::{request_view, Reply, ReplyView, Request, RequestView};
use crate::put::Put;
use crate::tables::Evicted;
use crate::totals::{Totals, UNKNOWN_TOTAL};

verus! {

/// The totals of the two tables are kept apart: replacing one gives it the new value and
/// leaves the other, and at first neither is known. The mark of an unknown total is not
/// the total of any table.
pub proof fn law_totals_are_kept_apart(totals: Totals, table: Evicted, total: i64)
    ensures
        totals.of(Evicted::Image) == totals.image,
        totals.of(Evicted::ViewCache) == totals.view_cache,
        totals.with(table, total).of(table) == total,
        table is Image ==> totals.with(table, total).view_cache == totals.view_cache,
        table is ViewCache ==> totals.with(table, total).image == totals.image,
        totals.with(table, totals.of(table)) == totals,
        Totals::unknown().of(table) == UNKNOWN_TOTAL,
        UNKNOWN_TOTAL < 0,
{
}

/// A timestamp is the seconds that the clock shows, as long as they fit, and 0 for a time
/// before the epoch; seconds that do not fit wrap around.
pub proof fn law_timestamp_is_the_seconds(seconds: u64)
    ensures
        timestamp_of(None) == 0,
        seconds <= i64::MAX ==> timestamp_of(Some(seconds)) == seconds,
        seconds > i64::MAX ==> timestamp_of(Some(seconds)) < 0 && timestamp_of(Some(seconds))
            + 0x1_0000_0000_0000_0000 == seconds,
{
}

/// The seconds at a time are the whole seconds of what has elapsed since the epoch, and
/// there are none before it.
pub proof fn law_seconds_since_the_epoch(time: SystemTime, duration: Duration)
    ensures
        elapsed(time) == Some(duration) ==> seconds_at(time) == Some(whole_secs(duration)),
        elapsed(time) is None ==> seconds_at(time) is None,
{
}

/// A cell says what it holds.
pub proof fn law_cell_says_what_it_holds(cell: Cell)
    ensures
        match cell {
            Cell::Null => cell@ == CellView::Null,
            Cell::Integer(i) => cell@ == CellView::Integer(i),
            Cell::Real => cell@ == CellView::Real,
            Cell::Text(text) => cell@ == CellView::Text(text@),
            Cell::Blob(bytes) => cell@ == CellView::Blob(bytes@),
        },
{
}

/// A row says what its cells say, in order.
pub proof fn law_row_says_what_its_cells_say(cells: Seq<Cell>, i: int)
    ensures
        cells_view(cells).len() == cells.len(),
        0 <= i < cells.len() ==> cells_view(cells)[i] == cells[i]@,
{
}

/// A blob is read from a column exactly where the column holds one, and is the one that it
/// holds; and so for an integer.
pub proof fn law_columns_are_read_as_they_are(
    cells: Seq<CellView>,
    i: int,
    bytes: Seq<u8>,
    number: i64,
)
    ensures
        blob_at(cells, i) == Some(bytes) <==> 0 <= i < cells.len() && cells[i] == CellView::Blob(
            bytes,
        ),
        blob_at(cells, i) is Some <==> 0 <= i < cells.len() && cells[i] is Blob,
        integer_at(cells, i) == Some(number) <==> 0 <= i < cells.len() && cells[i]
            == CellView::Integer(number),
        integer_at(cells, i) is Some <==> 0 <= i < cells.len() && cells[i] is Integer,
{
}

/// A request says what it asks for.
pub proof fn law_request_says_what_it_asks<'a>(command: Command<'a>)
    ensures
        request_view(Some(Request::Query(command))) == Some(RequestView::Query(command@)),
        request_view(Some(Request::Execute(command))) == Some(RequestView::Execute(command@)),
        request_view(Some(Request::NextRow)) == Some(RequestView::NextRow),
        request_view(None) is None,
{
}

/// A reply says what it brought.
pub proof fn law_reply_says_what_it_brought(reply: Reply)
    ensures
        match reply {
            Reply::Row(cells) => reply@ == ReplyView::Row(cells_view(cells@)),
            Reply::NoRow => reply@ == ReplyView::NoRow,
            Reply::Count(count) => reply@ == ReplyView::Count(count),
            Reply::Failed => reply@ == ReplyView::Failed,
        },
{
}

/// A write says what it was given, and how far it has come.
pub proof fn law_put_says_what_it_was_given<'a>(put: Put<'a>)
    ensures
        put@.table == put.table,
        put@.key == put.key@,
        put@.data == put.data@,
        put.etag is Some ==> put@.etag == Some(put.etag->0@),
        put.etag is None ==> put@.etag is None,
        put@.budget_bytes == put.budget_bytes,
        put@.now == put.now,
        put@.phase == put.phase,
{
}

/// A read says what it was given, and what it has found.
pub proof fn law_fetch_says_what_it_has<'a>(fetch: Fetch<'a>)
    ensures
        fetch@.table == fetch.table,
        fetch@.key == fetch.key@,
        match fetch.phase {
            FetchPhase::Looking => fetch@.phase == FetchPhaseView::Looking,
            FetchPhase::Touching { data, now } => fetch@.phase == (FetchPhaseView::Touching {
                data: data@,
                now,
            }),
            FetchPhase::Done { found: Some(data) } => fetch@.phase == (FetchPhaseView::Done {
                found: Some(data@),
            }),
            FetchPhase::Done { found: None } => fetch@.phase == (FetchPhaseView::Done {
                found: None,
            }),
        },
{
}

/// A scan says the entries that it has, in order.
pub proof fn law_scan_says_what_it_has(scan: HistoryScan, i: int)
    ensures
        scan@.phase == scan.phase,
        scan@.entries.len() == scan.entries@.len(),
        0 <= i < scan.entries@.len() ==> scan@.entries[i] == scan.entries@[i]@,
{
}

/// An opening says how far it has come, and its statements in order.
pub proof fn law_opening_says_how_far_it_is(phase: OpenPhase, i: int)
    ensures
        match phase {
            OpenPhase::Reading => phase@ == OpenPhaseView::Reading,
            OpenPhase::Running { steps, done } => {
                &&& phase@ matches OpenPhaseView::Running { steps: s, done: d }
                &&& d == done
                &&& s.len() == steps@.len()
                &&& 0 <= i < steps@.len() ==> s[i] == steps@[i]@
            },
            OpenPhase::Ready => phase@ == OpenPhaseView::Ready,
            OpenPhase::Failed => phase@ == OpenPhaseView::Failed,
        },
{
}

/// Optional and listed values say what they hold.
pub proof fn law_lists_say_what_they_hold(
    text: &str,
    blob: Vec<u8>,
    blobs: Seq<Vec<u8>>,
    commands: Seq<Command<'static>>,
    i: int,
)
    ensures
        text_view(Some(text)) == Some(text@),
        text_view(None) is None,
        blob_view(Some(blob)) == Some(blob@),
        blob_view(None) is None,
        blobs_view(blobs).len() == blobs.len(),
        0 <= i < blobs.len() ==> blobs_view(blobs)[i] == blobs[i]@,
        commands_view(commands).len() == commands.len(),
        0 <= i < commands.len() ==> commands_view(commands)[i] == commands[i]@,
{
}

} // verus!
