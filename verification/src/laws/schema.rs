//! What opening a database does to its tables.

use vstd::prelude::*;

use crate::laws::budget::{clean, exact};
use crate::model::{answers, sound, Cache, History, Store};
use crate::open::{creation, invalidation, setup, OpenPhaseView};
use crate::protocol::{ReplyView, RequestView};
use crate::tables::{Evicted, SCHEMA_VERSION};
use crate::totals::Totals;

verus! {

/// A database that is being opened.
pub struct OpenState {
    pub phase: OpenPhaseView,
    pub store: Store,
}

/// Whether the database's answer takes one state to the next.
pub open spec fn open_step(before: OpenState, reply: ReplyView, after: OpenState) -> bool {
    &&& before.phase.request() is Some
    &&& answers(before.store, before.phase.request()->0, reply, after.store)
    &&& after.phase == before.phase.fed(reply)
}

/// Whether an opening goes through these states, from its beginning.
pub open spec fn open_run(states: Seq<OpenState>, replies: Seq<ReplyView>) -> bool {
    &&& states.len() == replies.len() + 1
    &&& states[0].phase is Reading
    &&& forall|i: int|
        0 <= i < replies.len() ==> #[trigger] open_step(states[i], replies[i], states[i + 1])
}

/// The rows of a table, and none where it is not there.
pub open spec fn rows_or_none(cache: Option<Cache>) -> Cache {
    match cache {
        Some(rows) => rows,
        None => Map::empty(),
    }
}

/// Where in the setup of a database of another version a cached table is dropped.
spec fn dropped_at(table: Evicted) -> int {
    match table {
        Evicted::ViewCache => 0,
        Evicted::Image => 1,
    }
}

/// How many statements of the setup come before those that create.
spec fn drops(version: i64) -> int {
    if version != SCHEMA_VERSION {
        2
    } else {
        0
    }
}

/// What holds of the database `start` however far its setup came: the play history is
/// kept, or created empty, and a cached table is kept, gone or empty.
spec fn kept(start: Store, now: Store) -> bool {
    &&& now.history == start.history || (start.history is None && now.history == Some(no_plays()))
    &&& forall|table: Evicted|
        #![trigger now.cached(table)]
        now.cached(table) is None || now.cached(table) == Some(no_rows()) || now.cached(table)
            == start.cached(table)
}

/// An empty cached table.
pub open spec fn no_rows() -> Cache {
    Map::empty()
}

/// An empty play history.
pub open spec fn no_plays() -> History {
    Map::empty()
}

/// What the first `done` statements of the setup leave of the database `start`.
spec fn holds(start: Store, done: int, now: Store) -> bool {
    let created = done - drops(start.version);
    &&& now.version == if created >= 7 {
        SCHEMA_VERSION
    } else {
        start.version
    }
    &&& created >= 1 ==> now.view_cache is Some
    &&& created >= 2 ==> now.image is Some
    &&& created >= 5 ==> now.history is Some
    &&& forall|table: Evicted|
        #![trigger now.cached(table)]
        {
            &&& start.version == SCHEMA_VERSION ==> rows_or_none(now.cached(table))
                == rows_or_none(start.cached(table))
            &&& start.version != SCHEMA_VERSION && done > dropped_at(table) ==> rows_or_none(
                now.cached(table),
            ) == no_rows()
        }
}

/// A statement of the setup that did not fail.
proof fn lemma_step(start: Store, done: int, before: Store, reply: ReplyView, after: Store)
    requires
        0 <= done < setup(start.version).len(),
        kept(start, before),
        holds(start, done, before),
        answers(before, RequestView::Execute(setup(start.version)[done]), reply, after),
        !(reply is Failed),
    ensures
        kept(start, after),
        holds(start, done + 1, after),
{
    assert(before.cached(Evicted::ViewCache) == before.view_cache);
    assert(before.cached(Evicted::Image) == before.image);
    if done < drops(start.version) {
        assert(setup(start.version)[done] == invalidation()[done]);
    } else {
        assert(setup(start.version)[done] == creation()[done - drops(start.version)]);
    }
}

/// What holds in every state of a run but the first.
proof fn lemma_run(states: Seq<OpenState>, replies: Seq<ReplyView>, i: int)
    requires
        open_run(states, replies),
        1 <= i <= replies.len(),
    ensures
        ({
            let start = states[0].store;
            let now = states[i];
            let steps = setup(start.version);
            &&& kept(start, now.store)
            &&& i - 1 <= steps.len()
            &&& {
                ||| {
                    &&& now.phase == if i - 1 < steps.len() {
                        OpenPhaseView::Running { steps, done: i - 1 }
                    } else {
                        OpenPhaseView::Ready
                    }
                    &&& holds(start, i - 1, now.store)
                    &&& !(replies[i - 1] is Failed)
                }
                ||| {
                    &&& now.phase is Failed
                    &&& now.store.version == start.version
                    &&& replies[i - 1] is Failed
                    &&& i == replies.len()
                }
            }
        }),
    decreases i,
{
    let start = states[0].store;
    assert(open_step(states[i - 1], replies[i - 1], states[i - 1 + 1]));
    if i < replies.len() {
        assert(open_step(states[i], replies[i], states[i + 1]));
    }
    if i > 1 {
        lemma_run(states, replies, i - 1);
        if !(replies[i - 1] is Failed) {
            lemma_step(start, i - 2, states[i - 1].store, replies[i - 1], states[i].store);
        }
    }
}

/// The play history is never lost: whatever the stamped version, whatever the database
/// answers and however far the opening comes, a history that is there stays as it is.
pub proof fn law_history_survives(states: Seq<OpenState>, replies: Seq<ReplyView>, i: int)
    requires
        open_run(states, replies),
        0 <= i < states.len(),
        states[0].store.history is Some,
    ensures
        states[i].store.history == states[0].store.history,
{
    if i > 0 {
        lemma_run(states, replies, i);
    }
}

/// A database that opens is ready: every table is there, and it is stamped with the
/// version of the schema.
pub proof fn law_opened_is_ready(states: Seq<OpenState>, replies: Seq<ReplyView>)
    requires
        open_run(states, replies),
        states.last().phase is Ready,
    ensures
        states.last().store.ready(),
        states.last().store.version == SCHEMA_VERSION,
        states[0].store.history is None ==> states.last().store.history == Some(no_plays()),
{
    lemma_run(states, replies, replies.len() as int);
}

/// A database of the same version keeps what it holds: opening it adds empty tables
/// where some are not there, and changes nothing where all are.
pub proof fn law_same_version_keeps_everything(states: Seq<OpenState>, replies: Seq<ReplyView>)
    requires
        open_run(states, replies),
        states.last().phase is Ready,
        states[0].store.version == SCHEMA_VERSION,
    ensures
        forall|table: Evicted| #[trigger]
            states.last().store.rows(table) == rows_or_none(states[0].store.cached(table)),
        states[0].store.ready() ==> states.last().store == states[0].store,
{
    lemma_run(states, replies, replies.len() as int);
    let start = states[0].store;
    let end = states.last().store;
    assert(end.cached(Evicted::ViewCache) == end.view_cache);
    assert(end.cached(Evicted::Image) == end.image);
    assert forall|table: Evicted| #[trigger] end.rows(table) == rows_or_none(start.cached(table)) by {
        assert(rows_or_none(end.cached(table)) == rows_or_none(start.cached(table)));
        assert(table is ViewCache || table is Image);
    }
    if start.ready() {
        assert(end.rows(Evicted::ViewCache) == start.view_cache->0);
        assert(end.rows(Evicted::Image) == start.image->0);
    }
}

/// A database of another version loses what it cached: when it opens, both cached
/// tables are empty.
pub proof fn law_other_version_empties_caches(states: Seq<OpenState>, replies: Seq<ReplyView>)
    requires
        open_run(states, replies),
        states.last().phase is Ready,
        states[0].store.version != SCHEMA_VERSION,
    ensures
        forall|table: Evicted| #[trigger] states.last().store.rows(table) == no_rows(),
        states.last().store.sound(),
{
    lemma_run(states, replies, replies.len() as int);
    let end = states.last().store;
    assert forall|table: Evicted| #[trigger] end.rows(table) == no_rows() by {
        assert(rows_or_none(end.cached(table)) == no_rows());
        assert(table is ViewCache || table is Image);
    }
    assert(end.rows(Evicted::ViewCache) == no_rows());
    assert(end.rows(Evicted::Image) == no_rows());
    assert(sound(no_rows()));
}

/// Opening fails exactly on errors: the first error ends it, and without one it ends
/// ready. It is over after at most ten requests.
pub proof fn law_opening_fails_exactly_on_errors(states: Seq<OpenState>, replies: Seq<ReplyView>)
    requires
        open_run(states, replies),
    ensures
        replies.len() <= 10,
        states.last().phase is Failed <==> !clean(replies),
        states.last().phase is Failed ==> replies.last() is Failed,
        states.last().phase.request() is None ==> states.last().phase is Failed
            || states.last().phase is Ready,
        forall|i: int| 0 <= i < replies.len() - 1 ==> !(#[trigger] replies[i] is Failed),
{
    let n = replies.len() as int;
    assert forall|i: int| 0 <= i < n - 1 implies !(#[trigger] replies[i] is Failed) by {
        lemma_run(states, replies, i + 1);
    }
    if n > 0 {
        lemma_run(states, replies, n);
        if !(replies[n - 1] is Failed) {
            assert forall|i: int| 0 <= i < n implies !(#[trigger] replies[i] is Failed) by {
                if i < n - 1 {
                    assert(!(replies[i] is Failed));
                }
            }
        } else {
            assert(!clean(replies));
        }
    }
}

/// An opening that is not over, or that failed, leaves the version that the database is
/// stamped with, so that the next opening sets up what this one did not: a database of
/// another version is invalidated again.
pub proof fn law_version_is_stamped_last(states: Seq<OpenState>, replies: Seq<ReplyView>, i: int)
    requires
        open_run(states, replies),
        0 <= i < states.len(),
        states[i].phase !is Ready,
    ensures
        states[i].store.version == states[0].store.version,
{
    if i > 0 {
        lemma_run(states, replies, i);
    }
}

/// A session begins with exact totals: nothing was measured, so nothing is wrong.
pub proof fn law_session_begins_exact(store: Store)
    ensures
        exact(Totals::unknown(), store),
{
}

} // verus!
