//! Reading the play history.

use vstd::prelude::*;

use crate::cell::first_blob;
use crate::command::{Command, CommandView};
use crate::fetch::found_blob;
use crate::protocol::{request_view, Reply, ReplyView, Request, RequestView};

verus! {

/// How far a scan has come.
#[derive(Clone, Copy, Debug, PartialEq, Eq, Structural)]
pub enum ScanPhase {
    /// The query was not run yet.
    Starting,
    /// Going through its rows.
    Scanning,
    /// Over.
    Done,
}

/// A read of all history entries, most recent first. Each is a serialised entry;
/// the caller deserialises it.
#[derive(Debug)]
pub struct HistoryScan {
    pub phase: ScanPhase,
    pub entries: Vec<Vec<u8>>,
}

/// What a [`HistoryScan`] holds.
#[verifier::ext_equal]
pub struct HistoryScanView {
    pub phase: ScanPhase,
    pub entries: Seq<Seq<u8>>,
}

/// What a list of blobs holds.
pub open spec fn blobs_view(blobs: Seq<Vec<u8>>) -> Seq<Seq<u8>> {
    blobs.map_values(|blob: Vec<u8>| blob@)
}

impl View for HistoryScan {
    type V = HistoryScanView;

    open spec fn view(&self) -> HistoryScanView {
        HistoryScanView { phase: self.phase, entries: blobs_view(self.entries@) }
    }
}

impl HistoryScanView {
    /// A scan that has not begun.
    pub open spec fn fresh() -> HistoryScanView {
        HistoryScanView { phase: ScanPhase::Starting, entries: seq![] }
    }

    /// What the scan wants next; nothing when it is over.
    pub open spec fn request(self) -> Option<RequestView> {
        match self.phase {
            ScanPhase::Starting => Some(RequestView::Query(CommandView::SelectHistory)),
            ScanPhase::Scanning => Some(RequestView::NextRow),
            ScanPhase::Done => None,
        }
    }

    /// The scan after `reply`: a row adds its entry, or nothing where it holds no
    /// blob; without a row, the scan is over.
    pub open spec fn fed(self, reply: ReplyView) -> HistoryScanView {
        if self.phase is Done {
            self
        } else if reply is Row {
            HistoryScanView {
                phase: ScanPhase::Scanning,
                entries: match found_blob(reply) {
                    Some(entry) => self.entries.push(entry),
                    None => self.entries,
                },
            }
        } else {
            HistoryScanView { phase: ScanPhase::Done, ..self }
        }
    }
}

impl HistoryScan {
    /// A scan that has not begun.
    pub fn new() -> (scan: HistoryScan)
        ensures
            scan@ == HistoryScanView::fresh(),
    {
        let scan = HistoryScan { phase: ScanPhase::Starting, entries: Vec::new() };
        assert(scan@ =~= HistoryScanView::fresh());
        scan
    }

    /// What the scan wants next; nothing when it is over.
    pub fn request(&self) -> (request: Option<Request<'static>>)
        ensures
            request_view(request) == self@.request(),
    {
        match self.phase {
            ScanPhase::Starting => Some(Request::Query(Command::SelectHistory)),
            ScanPhase::Scanning => Some(Request::NextRow),
            ScanPhase::Done => None,
        }
    }

    /// Goes on with the database's answer to the last request.
    pub fn feed(&mut self, reply: Reply)
        ensures
            final(self)@ == old(self)@.fed(reply@),
    {
        if self.phase == ScanPhase::Done {
            return;
        }
        let ghost before = self.entries@;
        match reply {
            Reply::Row(cells) => {
                self.phase = ScanPhase::Scanning;
                if let Some(entry) = first_blob(cells) {
                    self.entries.push(entry);
                    assert(blobs_view(self.entries@) =~= blobs_view(before).push(entry@));
                }
            },
            _ => {
                self.phase = ScanPhase::Done;
            },
        }
        assert(self@ =~= old(self)@.fed(reply@));
    }
}

} // verus!
