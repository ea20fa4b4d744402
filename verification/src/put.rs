//! Storing a blob in a cached table, and evicting old rows past its byte budget.
//!
//! A write costs O(1)-ish: it sizes the row that it replaces by a primary-key
//! lookup and keeps the live total of the table from there, so the common
//! under-budget write scans nothing.

use vstd::prelude::*;

use crate::cell::{integer, integer_at};
use crate::command::{text_view, Command, CommandView};
use crate::protocol::{request_view, Reply, ReplyView, Request, RequestView};
use crate::tables::Evicted;
use crate::totals::{Totals, UNKNOWN_TOTAL};

verus! {

/// How far a write has come.
#[derive(Clone, Copy, Debug, PartialEq, Eq, Structural)]
pub enum Phase {
    /// Sizing the row that the write replaces. Sized before the write: that row
    /// stops counting toward the live total.
    Sizing,
    /// Writing the row, which replaces one of `replaced` bytes.
    Writing { replaced: i64 },
    /// Measuring the table, for the first time of the session.
    Measuring,
    /// Looking for the oldest row: the live total is over the budget.
    Choosing { total: i64 },
    /// Deleting the oldest row.
    Deleting { total: i64, rowid: i64, bytes: i64 },
    /// The row was written, and the budget enforced.
    Finished,
    /// The database refused the row, and nothing changed.
    Rejected,
}

/// A write of one blob to a cached table.
#[derive(Clone, Copy, Debug)]
pub struct Put<'a> {
    pub table: Evicted,
    pub key: &'a str,
    pub data: &'a [u8],
    pub etag: Option<&'a str>,
    /// The budget that the table is held to; no budget where it is not positive.
    pub budget_bytes: i64,
    /// The timestamp that the row gets.
    pub now: i64,
    pub phase: Phase,
}

/// What a [`Put`] holds.
pub struct PutView {
    pub table: Evicted,
    pub key: Seq<char>,
    pub data: Seq<u8>,
    pub etag: Option<Seq<char>>,
    pub budget_bytes: i64,
    pub now: i64,
    pub phase: Phase,
}

impl<'a> View for Put<'a> {
    type V = PutView;

    open spec fn view(&self) -> PutView {
        PutView {
            table: self.table,
            key: self.key@,
            data: self.data@,
            etag: text_view(self.etag),
            budget_bytes: self.budget_bytes,
            now: self.now,
            phase: self.phase,
        }
    }
}

/// The size of the row that a write replaces, as the database tells it; 0 if there is
/// none, or if it could not be read.
pub open spec fn replaced_bytes(reply: ReplyView) -> i64 {
    match reply {
        ReplyView::Row(cells) => match integer_at(cells, 0) {
            Some(bytes) => bytes,
            None => 0,
        },
        _ => 0,
    }
}

/// The measured total of a table, if the database could tell it.
pub open spec fn measured_total(reply: ReplyView) -> Option<i64> {
    match reply {
        ReplyView::Row(cells) => integer_at(cells, 0),
        _ => None,
    }
}

/// The id and the size of the oldest row, if there is one and both could be read.
pub open spec fn oldest(reply: ReplyView) -> Option<(i64, i64)> {
    match reply {
        ReplyView::Row(cells) => match (integer_at(cells, 0), integer_at(cells, 1)) {
            (Some(rowid), Some(bytes)) => Some((rowid, bytes)),
            _ => None,
        },
        _ => None,
    }
}

/// Whether a statement is known to have changed some row.
pub open spec fn changed_some(reply: ReplyView) -> bool {
    reply matches ReplyView::Count(count) && count != 0
}

/// What a live total of `total` bytes calls for: while it is over the budget,
/// evicting the oldest row; otherwise nothing more, and the total is kept.
pub open spec fn settled(
    totals: Totals,
    table: Evicted,
    total: i64,
    budget_bytes: i64,
) -> (Phase, Totals) {
    if total > budget_bytes {
        (Phase::Choosing { total }, totals)
    } else {
        (Phase::Finished, totals.with(table, total))
    }
}

/// What follows a write that changed the size of `table` by `delta` bytes. Where the
/// total is not known yet: measuring it, or nothing without a budget. Where it is
/// known, `delta` is folded into it: that is all without a budget, and otherwise the
/// new total says what is called for.
pub open spec fn enforced(
    totals: Totals,
    table: Evicted,
    delta: i64,
    budget_bytes: i64,
) -> (Phase, Totals) {
    if totals.of(table) == UNKNOWN_TOTAL {
        (
            if budget_bytes <= 0 {
                Phase::Finished
            } else {
                Phase::Measuring
            },
            totals,
        )
    } else if budget_bytes <= 0 {
        (Phase::Finished, totals.with(table, (totals.of(table) + delta) as i64))
    } else {
        settled(totals, table, (totals.of(table) + delta) as i64, budget_bytes)
    }
}

/// Whether a number is an `i64`.
pub open spec fn is_i64(n: int) -> bool {
    i64::MIN <= n <= i64::MAX
}

impl PutView {
    /// The size of the blob, as it is stored in the row.
    pub open spec fn size(self) -> i64 {
        self.data.len() as i64
    }

    /// What the write wants next; nothing when it is over.
    pub open spec fn request(self) -> Option<RequestView> {
        match self.phase {
            Phase::Sizing => Some(
                RequestView::Query(CommandView::RowBytes { table: self.table, key: self.key }),
            ),
            Phase::Writing { .. } => Some(
                RequestView::Execute(
                    CommandView::Put {
                        table: self.table,
                        key: self.key,
                        data: self.data,
                        etag: self.etag,
                        now: self.now,
                    },
                ),
            ),
            Phase::Measuring => Some(
                RequestView::Query(CommandView::SumBytes { table: self.table }),
            ),
            Phase::Choosing { .. } => Some(
                RequestView::Query(CommandView::OldestRow { table: self.table }),
            ),
            Phase::Deleting { rowid, .. } => Some(
                RequestView::Execute(CommandView::DeleteRow { table: self.table, rowid }),
            ),
            Phase::Finished => None,
            Phase::Rejected => None,
        }
    }

    /// Whether the sums that `reply` calls for can be formed.
    pub open spec fn in_range(self, totals: Totals, reply: ReplyView) -> bool {
        match self.phase {
            Phase::Writing { replaced } => reply is Failed || {
                &&& is_i64(self.size() - replaced)
                &&& totals.of(self.table) != UNKNOWN_TOTAL ==> is_i64(
                    totals.of(self.table) + (self.size() - replaced),
                )
            },
            Phase::Deleting { total, bytes, .. } => changed_some(reply) ==> is_i64(total - bytes),
            _ => true,
        }
    }

    /// Where `reply` takes the write, and the totals.
    pub open spec fn next(self, totals: Totals, reply: ReplyView) -> (Phase, Totals) {
        match self.phase {
            Phase::Sizing => (Phase::Writing { replaced: replaced_bytes(reply) }, totals),
            Phase::Writing { replaced } => if reply is Failed {
                (Phase::Rejected, totals)
            } else {
                enforced(
                    totals,
                    self.table,
                    (self.size() - replaced) as i64,
                    self.budget_bytes,
                )
            },
            Phase::Measuring => match measured_total(reply) {
                // The scan runs after the write, so it already accounts for it.
                Some(total) => settled(totals, self.table, total, self.budget_bytes),
                None => (Phase::Finished, totals),
            },
            Phase::Choosing { total } => match oldest(reply) {
                Some((rowid, bytes)) => (Phase::Deleting { total, rowid, bytes }, totals),
                None => (Phase::Finished, totals.with(self.table, total)),
            },
            Phase::Deleting { total, rowid, bytes } => if changed_some(reply) {
                settled(totals, self.table, (total - bytes) as i64, self.budget_bytes)
            } else {
                (Phase::Finished, totals.with(self.table, total))
            },
            Phase::Finished => (Phase::Finished, totals),
            Phase::Rejected => (Phase::Rejected, totals),
        }
    }

    /// The write after `reply`.
    pub open spec fn fed(self, totals: Totals, reply: ReplyView) -> PutView {
        PutView { phase: self.next(totals, reply).0, ..self }
    }
}

/// Size of the row currently stored under the key, or 0 if there is none.
pub fn row_bytes(reply: &Reply) -> (bytes: i64)
    ensures
        bytes == replaced_bytes(reply@),
{
    match reply {
        Reply::Row(cells) => match integer(cells, 0) {
            Some(bytes) => bytes,
            None => 0,
        },
        _ => 0,
    }
}

/// Total live bytes in the table.
pub fn sum_bytes(reply: &Reply) -> (total: Option<i64>)
    ensures
        total == measured_total(reply@),
{
    match reply {
        Reply::Row(cells) => integer(cells, 0),
        _ => None,
    }
}

/// `(rowid, bytes)` of the least-recently-accessed row.
pub fn oldest_row(reply: &Reply) -> (row: Option<(i64, i64)>)
    ensures
        row == oldest(reply@),
{
    match reply {
        Reply::Row(cells) => match (integer(cells, 0), integer(cells, 1)) {
            (Some(rowid), Some(bytes)) => Some((rowid, bytes)),
            _ => None,
        },
        _ => None,
    }
}

/// Whether a statement is known to have changed some row.
fn changed(reply: &Reply) -> (some: bool)
    ensures
        some == changed_some(reply@),
{
    match reply {
        Reply::Count(count) => *count != 0,
        _ => false,
    }
}

/// Goes on evicting while `total` is over the budget; otherwise keeps the total.
fn settle(totals: &mut Totals, table: Evicted, total: i64, budget_bytes: i64) -> (phase: Phase)
    ensures
        (phase, *final(totals)) == settled(*old(totals), table, total, budget_bytes),
{
    if total > budget_bytes {
        return Phase::Choosing { total };
    }
    totals.store(table, total);
    Phase::Finished
}

/// Fold a write of `delta` bytes into `table`'s live total, then evict the oldest
/// rows (by `accessed_at`) until it fits `budget_bytes`.
///
/// The total is tracked in memory rather than re-derived per write: it is measured
/// once per session and maintained from there, so the common under-budget write
/// does no reads at all. A write without a budget is folded in like any other, and
/// evicts nothing.
pub fn enforce_budget(
    totals: &mut Totals,
    table: Evicted,
    delta: i64,
    budget_bytes: i64,
) -> (phase: Phase)
    requires
        old(totals).of(table) != UNKNOWN_TOTAL ==> is_i64(
            old(totals).of(table) + delta,
        ),
    ensures
        (phase, *final(totals)) == enforced(*old(totals), table, delta, budget_bytes),
{
    let known: i64 = *totals.cell(table);
    if known == UNKNOWN_TOTAL {
        if budget_bytes <= 0 {
            return Phase::Finished;
        }
        return Phase::Measuring;
    }
    let total: i64 = known + delta;
    if budget_bytes <= 0 {
        totals.store(table, total);
        return Phase::Finished;
    }
    settle(totals, table, total, budget_bytes)
}

impl<'a> Put<'a> {
    /// A write of a view payload, at the time `now`.
    pub fn view_at(
        key: &'a str,
        payload: &'a [u8],
        etag: Option<&'a str>,
        budget_bytes: i64,
        now: i64,
    ) -> (put: Put<'a>)
        ensures
            put@ == (PutView {
                table: Evicted::ViewCache,
                key: key@,
                data: payload@,
                etag: text_view(etag),
                budget_bytes,
                now,
                phase: Phase::Sizing,
            }),
    {
        Put {
            table: Evicted::ViewCache,
            key,
            data: payload,
            etag,
            budget_bytes,
            now,
            phase: Phase::Sizing,
        }
    }

    /// A write of an image, at the time `now`.
    pub fn image_at(url: &'a str, data: &'a [u8], budget_bytes: i64, now: i64) -> (put: Put<'a>)
        ensures
            put@ == (PutView {
                table: Evicted::Image,
                key: url@,
                data: data@,
                etag: None,
                budget_bytes,
                now,
                phase: Phase::Sizing,
            }),
    {
        Put {
            table: Evicted::Image,
            key: url,
            data,
            etag: None,
            budget_bytes,
            now,
            phase: Phase::Sizing,
        }
    }

    /// What the write wants next; nothing when it is over.
    pub fn request(&self) -> (request: Option<Request<'a>>)
        ensures
            request_view(request) == self@.request(),
    {
        match self.phase {
            Phase::Sizing => Some(
                Request::Query(Command::RowBytes { table: self.table, key: self.key }),
            ),
            Phase::Writing { .. } => Some(
                Request::Execute(
                    Command::Put {
                        table: self.table,
                        key: self.key,
                        data: self.data,
                        etag: self.etag,
                        now: self.now,
                    },
                ),
            ),
            Phase::Measuring => Some(Request::Query(Command::SumBytes { table: self.table })),
            Phase::Choosing { .. } => Some(
                Request::Query(Command::OldestRow { table: self.table }),
            ),
            Phase::Deleting { rowid, .. } => Some(
                Request::Execute(Command::DeleteRow { table: self.table, rowid }),
            ),
            Phase::Finished | Phase::Rejected => None,
        }
    }

    /// Whether the sums that `reply` calls for can be formed. On a database that only
    /// this library has written to, they always can.
    pub fn in_range(&self, totals: &Totals, reply: &Reply) -> (fits: bool)
        ensures
            fits == self@.in_range(*totals, reply@),
    {
        match self.phase {
            Phase::Writing { replaced } => {
                if let Reply::Failed = reply {
                    return true;
                }
                match (self.data.len() as i64).checked_sub(replaced) {
                    None => false,
                    Some(delta) => {
                        let known: i64 = *totals.cell(self.table);
                        known == UNKNOWN_TOTAL || known.checked_add(delta).is_some()
                    },
                }
            },
            Phase::Deleting { total, bytes, .. } => !changed(reply) || total.checked_sub(
                bytes,
            ).is_some(),
            _ => true,
        }
    }

    /// Goes on with the database's answer to the last request.
    pub fn feed(&mut self, totals: &mut Totals, reply: &Reply)
        requires
            old(self)@.in_range(*old(totals), reply@),
        ensures
            final(self)@ == old(self)@.fed(*old(totals), reply@),
            *final(totals) == old(self)@.next(*old(totals), reply@).1,
    {
        let phase = match self.phase {
            Phase::Sizing => Phase::Writing { replaced: row_bytes(reply) },
            Phase::Writing { replaced } => match reply {
                Reply::Failed => Phase::Rejected,
                _ => {
                    let delta: i64 = self.data.len() as i64 - replaced;
                    enforce_budget(totals, self.table, delta, self.budget_bytes)
                },
            },
            Phase::Measuring => match sum_bytes(reply) {
                Some(total) => settle(totals, self.table, total, self.budget_bytes),
                None => Phase::Finished,
            },
            Phase::Choosing { total } => match oldest_row(reply) {
                Some((rowid, bytes)) => Phase::Deleting { total, rowid, bytes },
                None => {
                    totals.store(self.table, total);
                    Phase::Finished
                },
            },
            Phase::Deleting { total, bytes, .. } => if changed(reply) {
                settle(totals, self.table, total - bytes, self.budget_bytes)
            } else {
                totals.store(self.table, total);
                Phase::Finished
            },
            Phase::Finished => Phase::Finished,
            Phase::Rejected => Phase::Rejected,
        };
        self.phase = phase;
    }
}

} // verus!
