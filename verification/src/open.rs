//! Opening the database and setting its schema up.
//!
//! Everything cached can be rebuilt from its source. So instead of migrations the
//! database is stamped with a schema version, and the cached tables are dropped and
//! recreated whenever that version changes: a corrupt or incompatible file just
//! triggers a cold refetch.
//!
//! The lone exception is the play history: it has no source to be rebuilt from, so
//! it is never dropped and survives version changes.

use std::path::Path;

use vstd::prelude::*;

use crate::cell::{integer, integer_at};
use crate::command::{Command, CommandView};
use crate::protocol::{request_view, Reply, ReplyView, Request, RequestView};
use crate::tables::{Evicted, SCHEMA_VERSION};

verus! {

/// Where an ephemeral database lives.
pub const IN_MEMORY: &'static str = ":memory:";

/// `std::path::Path`, carried through: the text that it holds is named by
/// [`path_text`].
#[verifier::external_type_specification]
#[verifier::external_body]
pub struct ExPath(Path);

/// The text that a path holds, if it is valid Unicode.
pub uninterp spec fn path_text(path: &Path) -> Option<Seq<char>>;

/// `std::path::Path::to_str`: the text of the path, and nothing exactly where it is
/// not valid Unicode.
#[verifier::external_body]
fn to_str(path: &Path) -> (text: Option<&str>)
    ensures
        match text {
            Some(t) => path_text(path) == Some(t@),
            None => path_text(path) is None,
        },
{
    path.to_str()
}

/// The name that the database is opened by.
pub open spec fn database_name(path: Option<Seq<char>>) -> Seq<char> {
    match path {
        Some(text) => text,
        None => IN_MEMORY@,
    }
}

/// The name that the database is opened by: the text of the path, and an ephemeral
/// database for a path without one.
pub fn location(path: Option<&str>) -> (name: String)
    ensures
        name@ == database_name(
            match path {
                Some(text) => Some(text@),
                None => None,
            },
        ),
        path matches Some(text) ==> name@ == text@,
        path is None ==> name@ == ":memory:"@,
{
    match path {
        Some(text) => text.to_string(),
        None => IN_MEMORY.to_string(),
    }
}

/// What a list of statements says.
pub open spec fn commands_view(commands: Seq<Command<'static>>) -> Seq<CommandView> {
    commands.map_values(|command: Command<'static>| command@)
}

/// The statements that invalidate a database of another version: the cached tables go,
/// the play history stays.
pub open spec fn invalidation() -> Seq<CommandView> {
    seq![
        CommandView::DropTable { table: Evicted::ViewCache },
        CommandView::DropTable { table: Evicted::Image },
    ]
}

/// The statements that every database gets: whatever is not there yet is created, and
/// only then is the database stamped.
pub open spec fn creation() -> Seq<CommandView> {
    seq![
        CommandView::CreateTable { table: Evicted::ViewCache },
        CommandView::CreateTable { table: Evicted::Image },
        CommandView::IndexTable { table: Evicted::ViewCache },
        CommandView::IndexTable { table: Evicted::Image },
        CommandView::CreateHistory,
        CommandView::IndexHistory,
        CommandView::StampVersion,
    ]
}

/// The statements for a database that is stamped with `version`.
pub open spec fn setup(version: i64) -> Seq<CommandView> {
    if version != SCHEMA_VERSION {
        invalidation() + creation()
    } else {
        creation()
    }
}

/// The version that a database is stamped with, as it tells: 0 where it tells none or
/// something else than a number, nothing where the answer could not be read.
pub open spec fn stamped_version(reply: ReplyView) -> Option<i64> {
    match reply {
        ReplyView::Row(cells) => if cells.len() == 0 {
            None
        } else {
            match integer_at(cells, 0) {
                Some(version) => Some(version),
                None => Some(0),
            }
        },
        ReplyView::Failed => None,
        _ => Some(0),
    }
}

/// The version that a database is stamped with; see [`stamped_version`].
pub fn user_version(reply: &Reply) -> (version: Option<i64>)
    ensures
        version == stamped_version(reply@),
{
    match reply {
        Reply::Row(cells) => {
            if cells.len() == 0 {
                return None;
            }
            match integer(cells, 0) {
                Some(version) => Some(version),
                None => Some(0),
            }
        },
        Reply::Failed => None,
        _ => Some(0),
    }
}

/// The statements that set the schema of a database up that is stamped with `version`.
/// The setup fails with the first that fails: a database whose old tables could not be
/// dropped must not pass for a fresh one.
pub fn init_schema(version: i64) -> (steps: Vec<Command<'static>>)
    ensures
        commands_view(steps@) == setup(version),
{
    let mut steps: Vec<Command<'static>> = Vec::new();
    if version != SCHEMA_VERSION {
        // The play history is intentionally absent: it has no source to be rebuilt from.
        steps.push(Command::DropTable { table: Evicted::ViewCache });
        steps.push(Command::DropTable { table: Evicted::Image });
    }
    steps.push(Command::CreateTable { table: Evicted::ViewCache });
    steps.push(Command::CreateTable { table: Evicted::Image });
    steps.push(Command::IndexTable { table: Evicted::ViewCache });
    steps.push(Command::IndexTable { table: Evicted::Image });
    steps.push(Command::CreateHistory);
    steps.push(Command::IndexHistory);
    steps.push(Command::StampVersion);
    assert(commands_view(steps@) =~= setup(version));
    steps
}

/// How far the setup has come.
#[derive(Debug)]
pub enum OpenPhase {
    /// Reading the version that the database is stamped with.
    Reading,
    /// Running the statements of the setup; the first `done` of them were run.
    Running { steps: Vec<Command<'static>>, done: usize },
    /// The database is ready.
    Ready,
    /// A statement failed.
    Failed,
}

/// What an [`OpenPhase`] holds.
#[verifier::ext_equal]
pub enum OpenPhaseView {
    Reading,
    Running { steps: Seq<CommandView>, done: int },
    Ready,
    Failed,
}

impl View for OpenPhase {
    type V = OpenPhaseView;

    open spec fn view(&self) -> OpenPhaseView {
        match self {
            OpenPhase::Reading => OpenPhaseView::Reading,
            OpenPhase::Running { steps, done } => OpenPhaseView::Running {
                steps: commands_view(steps@),
                done: *done as int,
            },
            OpenPhase::Ready => OpenPhaseView::Ready,
            OpenPhase::Failed => OpenPhaseView::Failed,
        }
    }
}

impl OpenPhaseView {
    /// What the setup wants next; nothing when it is over.
    pub open spec fn request(self) -> Option<RequestView> {
        match self {
            OpenPhaseView::Reading => Some(RequestView::Query(CommandView::ReadVersion)),
            OpenPhaseView::Running { steps, done } => if 0 <= done < steps.len() {
                Some(RequestView::Execute(steps[done]))
            } else {
                None
            },
            OpenPhaseView::Ready => None,
            OpenPhaseView::Failed => None,
        }
    }

    /// The setup after `reply`.
    pub open spec fn fed(self, reply: ReplyView) -> OpenPhaseView {
        match self {
            OpenPhaseView::Reading => match stamped_version(reply) {
                Some(version) => OpenPhaseView::Running { steps: setup(version), done: 0 },
                None => OpenPhaseView::Failed,
            },
            OpenPhaseView::Running { steps, done } => if !(0 <= done < steps.len()) {
                OpenPhaseView::Ready
            } else if reply is Failed {
                OpenPhaseView::Failed
            } else if done + 1 < steps.len() {
                OpenPhaseView::Running { steps, done: done + 1 }
            } else {
                OpenPhaseView::Ready
            },
            OpenPhaseView::Ready => OpenPhaseView::Ready,
            OpenPhaseView::Failed => OpenPhaseView::Failed,
        }
    }
}

/// A database that is being opened.
#[derive(Debug)]
pub struct Opening {
    /// The name to open the database by, before the first request.
    pub name: String,
    pub phase: OpenPhase,
}

impl Opening {
    /// Opens the database at `path`.
    pub fn new(path: &Path) -> (opening: Opening)
        ensures
            opening.name@ == database_name(path_text(path)),
            path_text(path) matches Some(text) ==> opening.name@ == text,
            path_text(path) is None ==> opening.name@ == ":memory:"@,
            opening.phase@ == OpenPhaseView::Reading,
    {
        Opening { name: location(to_str(path)), phase: OpenPhase::Reading }
    }

    /// What the setup wants next; nothing when it is over.
    pub fn request(&self) -> (request: Option<Request<'static>>)
        ensures
            request_view(request) == self.phase@.request(),
    {
        match &self.phase {
            OpenPhase::Reading => Some(Request::Query(Command::ReadVersion)),
            OpenPhase::Running { steps, done } => if *done < steps.len() {
                Some(Request::Execute(steps[*done]))
            } else {
                None
            },
            OpenPhase::Ready | OpenPhase::Failed => None,
        }
    }

    /// The setup, after the database answered the last request.
    pub fn feed(self, reply: &Reply) -> (opening: Opening)
        ensures
            opening.name == self.name,
            opening.phase@ == self.phase@.fed(reply@),
    {
        let Opening { name, phase } = self;
        let phase = match phase {
            OpenPhase::Reading => match user_version(reply) {
                Some(version) => OpenPhase::Running { steps: init_schema(version), done: 0 },
                None => OpenPhase::Failed,
            },
            OpenPhase::Running { steps, done } => {
                let refused = match reply {
                    Reply::Failed => true,
                    _ => false,
                };
                if done >= steps.len() {
                    OpenPhase::Ready
                } else if refused {
                    OpenPhase::Failed
                } else if done + 1 < steps.len() {
                    OpenPhase::Running { steps, done: done + 1 }
                } else {
                    OpenPhase::Ready
                }
            },
            OpenPhase::Ready => OpenPhase::Ready,
            OpenPhase::Failed => OpenPhase::Failed,
        };
        Opening { name, phase }
    }
}

} // verus!
