//! The records that the commit store keeps.

use vstd::prelude::*;

verus! {

/// A commit as the store keeps it: where it can be seen, and its message.
#[derive(Debug)]
pub struct Commit {
    pub url: String,
    pub message: String,
}

/// The mathematical value of a [`Commit`].
pub struct CommitView {
    pub url: Seq<char>,
    pub message: Seq<char>,
}

impl View for Commit {
    type V = CommitView;

    open spec fn view(&self) -> CommitView {
        CommitView { url: self.url@, message: self.message@ }
    }
}

/// An imported repository: its row id in the store and its `owner/name`.
#[derive(Debug)]
pub struct Repository {
    pub id: i32,
    pub name: String,
}

/// The mathematical value of a [`Repository`].
pub struct RepositoryView {
    pub id: int,
    pub name: Seq<char>,
}

impl View for Repository {
    type V = RepositoryView;

    open spec fn view(&self) -> RepositoryView {
        RepositoryView { id: self.id as int, name: self.name@ }
    }
}

} // verus!
