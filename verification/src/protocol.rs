//! What an operation asks of the database, and what the database answers.

use vstd::prelude::*;

use crate::cell::{cells_view, Cell, CellView};
use crate::command::{Command, CommandView};

verus! {

/// What an operation wants done next.
#[derive(Clone, Copy, Debug, PartialEq, Eq)]
pub enum Request<'a> {
    /// Run a query and fetch its first row.
    Query(Command<'a>),
    /// Fetch the next row of the query that was run last.
    NextRow,
    /// Run a statement that yields no rows.
    Execute(Command<'a>),
}

/// What a [`Request`] says.
pub enum RequestView {
    Query(CommandView),
    NextRow,
    Execute(CommandView),
}

impl<'a> View for Request<'a> {
    type V = RequestView;

    open spec fn view(&self) -> RequestView {
        match self {
            Request::Query(command) => RequestView::Query(command@),
            Request::NextRow => RequestView::NextRow,
            Request::Execute(command) => RequestView::Execute(command@),
        }
    }
}

/// What an optional request says.
pub open spec fn request_view(request: Option<Request>) -> Option<RequestView> {
    match request {
        Some(r) => Some(r@),
        None => None,
    }
}

/// What the database answered to a request.
#[derive(Debug, PartialEq)]
pub enum Reply {
    /// A row was fetched.
    Row(Vec<Cell>),
    /// There is no row, or no further one.
    NoRow,
    /// The statement ran and changed this many rows.
    Count(u64),
    /// The database reported an error.
    Failed,
}

/// What a [`Reply`] says.
pub enum ReplyView {
    Row(Seq<CellView>),
    NoRow,
    Count(u64),
    Failed,
}

impl View for Reply {
    type V = ReplyView;

    open spec fn view(&self) -> ReplyView {
        match self {
            Reply::Row(cells) => ReplyView::Row(cells_view(cells@)),
            Reply::NoRow => ReplyView::NoRow,
            Reply::Count(count) => ReplyView::Count(*count),
            Reply::Failed => ReplyView::Failed,
        }
    }
}

} // verus!
