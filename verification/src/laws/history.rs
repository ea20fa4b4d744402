//! What the play history gives back.

use vstd::prelude::*;

use crate::command::CommandView;
use crate::fetch::found_blob;
use crate::history::HistoryScanView;
use crate::model::{answers, lists_history, scan_replies, History, Played, Store};
use crate::protocol::{ReplyView, RequestView};

verus! {

/// The scan after the first `n` of these answers.
pub open spec fn scanned(replies: Seq<ReplyView>, n: int) -> HistoryScanView
    decreases n,
{
    if n <= 0 {
        HistoryScanView::fresh()
    } else {
        scanned(replies, n - 1).fed(replies[n - 1])
    }
}

/// The entries of some tracks.
pub open spec fn entries_of(history: History, order: Seq<Seq<char>>) -> Seq<Seq<u8>> {
    order.map_values(|track: Seq<char>| history[track].entry)
}

/// Part of a scan gives back part of the entries.
proof fn lemma_scanned(history: History, order: Seq<Seq<char>>, n: int)
    requires
        0 <= n <= order.len(),
    ensures
        scanned(scan_replies(history, order), n).entries == entries_of(history, order).take(n),
        scanned(scan_replies(history, order), n).phase is Starting <==> n == 0,
        !(scanned(scan_replies(history, order), n).phase is Done),
    decreases n,
{
    let replies = scan_replies(history, order);
    if n > 0 {
        lemma_scanned(history, order, n - 1);
        assert(found_blob(replies[n - 1]) == Some(history[order[n - 1]].entry));
        assert(entries_of(history, order).take(n) =~= entries_of(history, order).take(n - 1).push(
            history[order[n - 1]].entry,
        ));
    } else {
        assert(entries_of(history, order).take(0) =~= Seq::empty());
    }
}

/// A scan gives back every entry once, most recent first, in the order in which the
/// database lists them, and is over after the last.
pub proof fn law_scan_gives_all_entries(store: Store, order: Seq<Seq<char>>)
    requires
        store.history is Some,
        lists_history(store.history->0, order),
    ensures
        ({
            let history = store.history->0;
            let replies = scan_replies(history, order);
            let end = scanned(replies, replies.len() as int);
            &&& end.entries == entries_of(history, order)
            &&& end.request() is None
            &&& forall|i: int|
                0 <= i < replies.len() ==> {
                    &&& (#[trigger] scanned(replies, i)).request() == Some(
                        if i == 0 {
                            RequestView::Query(CommandView::SelectHistory)
                        } else {
                            RequestView::NextRow
                        },
                    )
                    &&& answers(store, scanned(replies, i).request()->0, replies[i], store)
                }
            &&& forall|i: int, j: int|
                0 <= i < j < order.len() ==> history[#[trigger] order[i]].played_at
                    >= history[#[trigger] order[j]].played_at
            &&& end.entries.len() == history.dom().len()
        }),
{
    let history = store.history->0;
    let replies = scan_replies(history, order);
    lemma_scanned(history, order, order.len() as int);
    assert(entries_of(history, order).take(order.len() as int) =~= entries_of(history, order));
    assert forall|i: int| 0 <= i < replies.len() implies (#[trigger] scanned(
        replies,
        i,
    )).request() == Some(
        if i == 0 {
            RequestView::Query(CommandView::SelectHistory)
        } else {
            RequestView::NextRow
        },
    ) && answers(store, scanned(replies, i).request()->0, replies[i], store) by {
        lemma_scanned(history, order, i);
        if i < order.len() {
            assert(order.to_set().contains(order[i]));
            assert(history.contains_key(order[i]));
        }
    }
    order.unique_seq_to_set();
}

/// A scan under way.
pub struct ScanState {
    pub scan: HistoryScanView,
    pub store: Store,
}

/// Whether the database's answer takes one state to the next.
pub open spec fn scan_step(before: ScanState, reply: ReplyView, after: ScanState) -> bool {
    &&& before.scan.request() is Some
    &&& answers(before.store, before.scan.request()->0, reply, after.store)
    &&& after.scan == before.scan.fed(reply)
}

/// A scan changes no table, whatever the database answers.
pub proof fn law_scan_changes_nothing(states: Seq<ScanState>, replies: Seq<ReplyView>, i: int)
    requires
        states.len() == replies.len() + 1,
        states[0].scan == HistoryScanView::fresh(),
        forall|j: int|
            0 <= j < replies.len() ==> #[trigger] scan_step(states[j], replies[j], states[j + 1]),
        0 <= i < states.len(),
    ensures
        states[i].store == states[0].store,
    decreases i,
{
    if i > 0 {
        law_scan_changes_nothing(states, replies, i - 1);
        assert(scan_step(states[i - 1], replies[i - 1], states[i - 1 + 1]));
    }
}

/// A scan that breaks off gives back what it has: an error ends it like the last row
/// does, and no entry that was read is lost.
pub proof fn law_scan_survives_errors(replies: Seq<ReplyView>, n: int)
    requires
        0 <= n < replies.len(),
        replies[n] is Failed,
        forall|i: int| 0 <= i < n ==> #[trigger] replies[i] is Row,
    ensures
        scanned(replies, n + 1).entries == scanned(replies, n).entries,
        scanned(replies, n + 1).request() is None,
{
    assert(scanned(replies, n + 1) == scanned(replies, n).fed(replies[n]));
}

/// Storing an entry deduplicates by track: the history then holds the new entry for
/// that track and all others as before, and nothing outside the history changes.
pub proof fn law_replay_replaces(
    before: Store,
    track: Seq<char>,
    played_at: i64,
    entry: Seq<u8>,
    reply: ReplyView,
    after: Store,
)
    requires
        before.history is Some,
        answers(
            before,
            RequestView::Execute(CommandView::PutHistory { track_id: track, played_at, entry }),
            reply,
            after,
        ),
        !(reply is Failed),
    ensures
        after.history is Some,
        after.history->0.contains_key(track),
        after.history->0[track] == (Played { played_at, entry }),
        forall|other: Seq<char>|
            #![trigger after.history->0.contains_key(other)]
            other != track ==> {
                &&& after.history->0.contains_key(other) <==> before.history->0.contains_key(other)
                &&& after.history->0[other] == before.history->0[other]
            },
        after == (Store { history: after.history, ..before }),
{
}

/// A replay moves its track to the front: when an entry is stored with a later time than
/// every other track's, a scan gives back its entry first, once, and the entries of
/// the other tracks after it.
pub proof fn law_replay_moves_to_front(
    before: Store,
    track: Seq<char>,
    played_at: i64,
    entry: Seq<u8>,
    reply: ReplyView,
    after: Store,
    order: Seq<Seq<char>>,
)
    requires
        before.history is Some,
        before.history->0.dom().finite(),
        forall|other: Seq<char>| #[trigger]
            before.history->0.contains_key(other) && other != track
                ==> before.history->0[other].played_at < played_at,
        answers(
            before,
            RequestView::Execute(CommandView::PutHistory { track_id: track, played_at, entry }),
            reply,
            after,
        ),
        !(reply is Failed),
        lists_history(after.history->0, order),
    ensures
        order.len() == before.history->0.dom().insert(track).len(),
        order[0] == track,
        entries_of(after.history->0, order)[0] == entry,
        forall|i: int|
            0 < i < order.len() ==> #[trigger] order[i] != track
                && before.history->0.contains_key(order[i]) && entries_of(
                after.history->0,
                order,
            )[i] == before.history->0[order[i]].entry,
{
    let history = after.history->0;
    assert(history.dom() =~= before.history->0.dom().insert(track));
    order.unique_seq_to_set();
    assert(order.to_set().contains(track));
    let i = choose|i: int| 0 <= i < order.len() && order[i] == track;
    assert forall|j: int| 0 <= j < order.len() implies history.contains_key(#[trigger] order[j]) by {
        assert(order.to_set().contains(order[j]));
    }
    if i != 0 {
        assert(history.contains_key(order[0]));
        assert(order[0] != track);
        assert(before.history->0.contains_key(order[0]));
        assert(history[order[0]].played_at >= history[order[i]].played_at);
    }
}

/// Clearing empties the history: a scan then gives back nothing, and nothing outside
/// the history changes.
pub proof fn law_clear_empties(
    before: Store,
    reply: ReplyView,
    after: Store,
    order: Seq<Seq<char>>,
)
    requires
        before.history is Some,
        answers(before, RequestView::Execute(CommandView::ClearHistory), reply, after),
        !(reply is Failed),
        lists_history(after.history->0, order),
    ensures
        scanned(scan_replies(after.history->0, order), 1).entries == Seq::<Seq<u8>>::empty(),
        scanned(scan_replies(after.history->0, order), 1).request() is None,
        scan_replies(after.history->0, order).len() == 1,
        after == (Store { history: after.history, ..before }),
{
    let history = after.history->0;
    if order.len() > 0 {
        assert(order.to_set().contains(order[0]));
    }
    let replies = scan_replies(history, order);
    assert(scanned(replies, 1) == scanned(replies, 0).fed(replies[0]));
}

} // verus!
