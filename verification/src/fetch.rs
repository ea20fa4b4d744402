//! Reading a blob from a cached table.

use std::time::SystemTime;

use vstd::prelude::*;

use crate::cell::{blob_at, first_blob};
use crate::clock::{now_secs, seconds_at, timestamp_of};
use crate::command::{Command, CommandView};
use crate::protocol::{request_view, Reply, ReplyView, Request, RequestView};
use crate::tables::Evicted;

verus! {

/// How far a read has come.
#[derive(Debug, PartialEq)]
pub enum FetchPhase {
    /// Looking the row up.
    Looking,
    /// The row was found; bumping its access time.
    Touching { data: Vec<u8>, now: i64 },
    /// Over, with the blob or without one.
    Done { found: Option<Vec<u8>> },
}

/// What a [`FetchPhase`] holds.
pub enum FetchPhaseView {
    Looking,
    Touching { data: Seq<u8>, now: i64 },
    Done { found: Option<Seq<u8>> },
}

/// What an optional blob holds.
pub open spec fn blob_view(blob: Option<Vec<u8>>) -> Option<Seq<u8>> {
    match blob {
        Some(bytes) => Some(bytes@),
        None => None,
    }
}

impl View for FetchPhase {
    type V = FetchPhaseView;

    open spec fn view(&self) -> FetchPhaseView {
        match self {
            FetchPhase::Looking => FetchPhaseView::Looking,
            FetchPhase::Touching { data, now } => FetchPhaseView::Touching { data: data@, now: *now },
            FetchPhase::Done { found } => FetchPhaseView::Done { found: blob_view(*found) },
        }
    }
}

/// A read of one blob from a cached table, which bumps the row's access time.
#[derive(Debug)]
pub struct Fetch<'a> {
    pub table: Evicted,
    pub key: &'a str,
    pub phase: FetchPhase,
}

/// What a [`Fetch`] holds.
pub struct FetchView {
    pub table: Evicted,
    pub key: Seq<char>,
    pub phase: FetchPhaseView,
}

impl<'a> View for Fetch<'a> {
    type V = FetchView;

    open spec fn view(&self) -> FetchView {
        FetchView { table: self.table, key: self.key@, phase: self.phase@ }
    }
}

/// The blob that the database found, if it found one.
pub open spec fn found_blob(reply: ReplyView) -> Option<Seq<u8>> {
    match reply {
        ReplyView::Row(cells) => blob_at(cells, 0),
        _ => None,
    }
}

impl FetchView {
    /// A read that has not begun.
    pub open spec fn fresh(table: Evicted, key: Seq<char>) -> FetchView {
        FetchView { table, key, phase: FetchPhaseView::Looking }
    }

    /// What the read wants next; nothing when it is over.
    pub open spec fn request(self) -> Option<RequestView> {
        match self.phase {
            FetchPhaseView::Looking => Some(
                RequestView::Query(CommandView::Select { table: self.table, key: self.key }),
            ),
            FetchPhaseView::Touching { now, .. } => Some(
                RequestView::Execute(
                    CommandView::Touch { table: self.table, key: self.key, now },
                ),
            ),
            FetchPhaseView::Done { .. } => None,
        }
    }

    /// The read after `reply`, which came at the time `now`: a blob that was found is
    /// touched, and the read is over whatever came of that.
    pub open spec fn fed(self, reply: ReplyView, now: i64) -> FetchView {
        FetchView {
            phase: match self.phase {
                FetchPhaseView::Looking => match found_blob(reply) {
                    Some(data) => FetchPhaseView::Touching { data, now },
                    None => FetchPhaseView::Done { found: None },
                },
                FetchPhaseView::Touching { data, .. } => FetchPhaseView::Done { found: Some(data) },
                FetchPhaseView::Done { found } => FetchPhaseView::Done { found },
            },
            ..self
        }
    }

    /// The blob that the read has found so far.
    pub open spec fn found(self) -> Option<Seq<u8>> {
        match self.phase {
            FetchPhaseView::Looking => None,
            FetchPhaseView::Touching { data, .. } => Some(data),
            FetchPhaseView::Done { found } => found,
        }
    }
}

impl<'a> Fetch<'a> {
    /// A read of the blob stored under `key`.
    pub fn new(table: Evicted, key: &'a str) -> (fetch: Fetch<'a>)
        ensures
            fetch@ == FetchView::fresh(table, key@),
    {
        Fetch { table, key, phase: FetchPhase::Looking }
    }

    /// What the read wants next; nothing when it is over.
    pub fn request(&self) -> (request: Option<Request<'a>>)
        ensures
            request_view(request) == self@.request(),
    {
        match &self.phase {
            FetchPhase::Looking => Some(
                Request::Query(Command::Select { table: self.table, key: self.key }),
            ),
            FetchPhase::Touching { now, .. } => Some(
                Request::Execute(Command::Touch { table: self.table, key: self.key, now: *now }),
            ),
            FetchPhase::Done { .. } => None,
        }
    }

    /// The read, after the database answered the last request at the time `now`.
    pub fn feed_at(self, reply: Reply, now: i64) -> (fetch: Fetch<'a>)
        ensures
            fetch@ == self@.fed(reply@, now),
    {
        let Fetch { table, key, phase } = self;
        let phase = match phase {
            FetchPhase::Looking => {
                let found = match reply {
                    Reply::Row(cells) => first_blob(cells),
                    _ => None,
                };
                match found {
                    Some(data) => FetchPhase::Touching { data, now },
                    None => FetchPhase::Done { found: None },
                }
            },
            FetchPhase::Touching { data, .. } => FetchPhase::Done { found: Some(data) },
            FetchPhase::Done { found } => FetchPhase::Done { found },
        };
        Fetch { table, key, phase }
    }

    /// The read, after the database answered the last request: [`Fetch::feed_at`] the
    /// time that the clock shows.
    pub fn feed(self, reply: Reply) -> (fetch: Fetch<'a>)
        ensures
            exists|time: SystemTime, now: i64|
                now == timestamp_of(#[trigger] seconds_at(time)) && fetch@ == #[trigger] self@.fed(
                    reply@,
                    now,
                ),
    {
        let now: i64 = now_secs();
        self.feed_at(reply, now)
    }

    /// The blob that the read has found.
    pub fn found(self) -> (data: Option<Vec<u8>>)
        ensures
            blob_view(data) == self@.found(),
            data matches Some(bytes) ==> self@.found() == Some(bytes@),
            data is None ==> self@.found() is None,
    {
        match self.phase {
            FetchPhase::Looking => None,
            FetchPhase::Touching { data, .. } => Some(data),
            FetchPhase::Done { found } => found,
        }
    }
}

} // verus!
