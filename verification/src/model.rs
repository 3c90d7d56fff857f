//! The records that the remote service reports, each with its view: the
//! same record with its texts as sequences of characters.

use vstd::prelude::*;

verus! {

/// The views of the items of a sequence, in order.
pub open spec fn views<T: View>(items: Seq<T>) -> Seq<T::V> {
    items.map_values(|item: T| item@)
}

/// A tracked pipeline: a project key, a workflow name, and the kind of thing
/// that was bookmarked. Only bookmarks of kind "workflow" have runs to fetch.
#[derive(Clone, Debug, PartialEq, Eq)]
pub struct Bookmark {
    pub key: String,
    pub workflow_name: String,
    pub kind: String,
}

/// A bookmark, with its texts as sequences of characters.
pub struct BookmarkView {
    pub key: Seq<char>,
    pub workflow_name: Seq<char>,
    pub kind: Seq<char>,
}

impl View for Bookmark {
    type V = BookmarkView;

    open spec fn view(&self) -> BookmarkView {
        BookmarkView { key: self.key@, workflow_name: self.workflow_name@, kind: self.kind@ }
    }
}

/// An announcement to the account, with its level and whether it was read.
#[derive(Clone, Debug, PartialEq, Eq)]
pub struct Broadcast {
    pub id: i64,
    pub title: String,
    pub level: String,
    pub read: bool,
}

/// An announcement, with its texts as sequences of characters.
pub struct BroadcastView {
    pub id: int,
    pub title: Seq<char>,
    pub level: Seq<char>,
    pub read: bool,
}

impl View for Broadcast {
    type V = BroadcastView;

    open spec fn view(&self) -> BroadcastView {
        BroadcastView {
            id: self.id as int,
            title: self.title@,
            level: self.level@,
            read: self.read,
        }
    }
}

/// One line of the system status: a component and its health flag.
#[derive(Clone, Debug, PartialEq, Eq)]
pub struct Component {
    pub name: String,
    pub status: String,
}

/// A line of the system status, with its texts as sequences of characters.
pub struct ComponentView {
    pub name: Seq<char>,
    pub status: Seq<char>,
}

impl View for Component {
    type V = ComponentView;

    open spec fn view(&self) -> ComponentView {
        ComponentView { name: self.name@, status: self.status@ }
    }
}

/// What fetching the latest run of one bookmark gave: the run, or the
/// failure as the remote service reports one: the HTTP status (zero where
/// the request never got an answer), a message, and the identifier of the
/// failure.
#[derive(Clone, Debug, PartialEq, Eq)]
pub enum RunStatus {
    Fetched { number: i64, sub_number: i64, status: String },
    Failed { code: u16, message: String, uuid: String },
}

/// A run status, with its numbers as integers and its texts as sequences of characters.
pub enum RunView {
    Fetched { number: int, sub_number: int, status: Seq<char> },
    Failed { code: u16, message: Seq<char>, uuid: Seq<char> },
}

impl View for RunStatus {
    type V = RunView;

    open spec fn view(&self) -> RunView {
        match self {
            RunStatus::Fetched { number, sub_number, status } => RunView::Fetched {
                number: *number as int,
                sub_number: *sub_number as int,
                status: status@,
            },
            RunStatus::Failed { code, message, uuid } => RunView::Failed {
                code: *code,
                message: message@,
                uuid: uuid@,
            },
        }
    }
}

} // verus!
