//! The commit store: the texts of its queries, and the plan that imports
//! a repository's commits into it.
//!
//! Importing talks to the store step by step. [`CommitImport`] makes the
//! decisions: the caller performs each [`DbAction`] it hands out and hands
//! back what came of it as a [`DbEvent`].

pub mod query;

use vstd::prelude::*;
use vstd::string::*;

use crate::model::{Commit, CommitView, Repository, RepositoryView};
use crate::text::{nat_decimal, push_u64_decimal};
use self::query::{
    create_commits_table, create_commits_table_text, create_repositories_table,
    create_repositories_table_text, insert_commit, insert_commit_text, insert_repository,
    insert_repository_text, select_repositories_by_name, select_repositories_by_name_text,
};

verus! {

/// Why an import stopped short.
#[derive(Debug, Clone, Copy, PartialEq, Eq)]
pub enum ImportError {
    /// Reading the repository back just after recording it gave no row.
    RepositoryNotFound,
    /// Inserting one commit changed this many rows, not one.
    UnexpectedChanges(usize),
    /// The event does not answer the action that was handed out.
    UnexpectedEvent,
    /// The import had already stopped.
    Stopped,
}

/// What the store did with the last action.
pub enum DbEvent {
    /// The statement ran, or the message was shown.
    Done,
    /// The rows that the query read.
    Rows(Vec<Repository>),
    /// The number of rows that the update changed.
    Changes(usize),
}

/// The next thing to do with the store.
pub enum DbAction {
    /// Run a statement that reads nothing.
    Execute(String),
    /// Run a query that reads repositories, and hand back its rows.
    Select(String),
    /// Run an update, and hand back how many rows it changed.
    Update(String),
    /// Show a progress message.
    Print(String),
    /// The import is complete.
    Finish,
    /// The import failed.
    Abort(ImportError),
}

/// Where an import stands: what it waits for.
#[derive(Debug, Clone, Copy, PartialEq, Eq)]
pub enum ImportPhase {
    Start,
    RepositoriesTable,
    CommitsTable,
    RepositoryRow,
    Lookup,
    Announced,
    Inserting,
    Reported,
    Finished,
    Failed,
}

/// The mathematical value of a [`DbEvent`].
pub enum EventView {
    Done,
    Rows(Seq<RepositoryView>),
    Changes(nat),
}

/// The mathematical value of a [`DbAction`].
pub enum ActionView {
    Execute(Seq<char>),
    Select(Seq<char>),
    Update(Seq<char>),
    Print(Seq<char>),
    Finish,
    Abort(ImportError),
}

impl View for DbEvent {
    type V = EventView;

    open spec fn view(&self) -> EventView {
        match self {
            DbEvent::Done => EventView::Done,
            DbEvent::Rows(rows) => EventView::Rows(rows@.map_values(|r: Repository| r@)),
            DbEvent::Changes(n) => EventView::Changes(*n as nat),
        }
    }
}

impl View for DbAction {
    type V = ActionView;

    open spec fn view(&self) -> ActionView {
        match self {
            DbAction::Execute(q) => ActionView::Execute(q@),
            DbAction::Select(q) => ActionView::Select(q@),
            DbAction::Update(q) => ActionView::Update(q@),
            DbAction::Print(m) => ActionView::Print(m@),
            DbAction::Finish => ActionView::Finish,
            DbAction::Abort(e) => ActionView::Abort(*e),
        }
    }
}

/// Imports the commits of one repository into the store.
pub struct CommitImport {
    repository_name: String,
    commits: Vec<Commit>,
    queries: Vec<String>,
    next: usize,
    phase: ImportPhase,
}

/// The mathematical value of a [`CommitImport`].
pub struct ImportView {
    pub repository_name: Seq<char>,
    pub commits: Seq<CommitView>,
    pub queries: Seq<Seq<char>>,
    pub next: int,
    pub phase: ImportPhase,
}

impl View for CommitImport {
    type V = ImportView;

    closed spec fn view(&self) -> ImportView {
        ImportView {
            repository_name: self.repository_name@,
            commits: self.commits@.map_values(|c: Commit| c@),
            queries: self.queries@.map_values(|q: String| q@),
            next: self.next as int,
            phase: self.phase,
        }
    }
}

/// The message shown once the repository's row is known.
pub open spec fn announce_text(name: Seq<char>) -> Seq<char> {
    "insert repository "@ + name
}

/// The message shown once every commit is inserted.
pub open spec fn report_text(count: nat) -> Seq<char> {
    "insert "@ + nat_decimal(count) + " commits"@
}

/// The inserts of `commits` under the repository with row id `id`.
pub open spec fn import_queries(id: int, commits: Seq<CommitView>) -> Seq<Seq<char>> {
    commits.map_values(|c: CommitView| insert_commit_text(id, c))
}

/// The import of `commits` into the repository `name`, before it starts.
pub open spec fn initial_import(name: Seq<char>, commits: Seq<CommitView>) -> ImportView {
    ImportView { repository_name: name, commits, queries: Seq::empty(), next: 0, phase: ImportPhase::Start }
}

/// `s` moved on to phase `phase`.
pub open spec fn enter(s: ImportView, phase: ImportPhase) -> ImportView {
    ImportView { phase, ..s }
}

/// One step of an import: in state `s`, given what came of the last
/// action, the next state and the next action.
pub open spec fn import_step(s: ImportView, e: EventView) -> (ImportView, ActionView) {
    let unexpected = (enter(s, ImportPhase::Failed), ActionView::Abort(ImportError::UnexpectedEvent));
    match s.phase {
        ImportPhase::Start => (
            enter(s, ImportPhase::RepositoriesTable),
            ActionView::Execute(create_repositories_table_text()),
        ),
        ImportPhase::RepositoriesTable => match e {
            EventView::Done => (
                enter(s, ImportPhase::CommitsTable),
                ActionView::Execute(create_commits_table_text()),
            ),
            _ => unexpected,
        },
        ImportPhase::CommitsTable => match e {
            EventView::Done => (
                enter(s, ImportPhase::RepositoryRow),
                ActionView::Execute(insert_repository_text(s.repository_name)),
            ),
            _ => unexpected,
        },
        ImportPhase::RepositoryRow => match e {
            EventView::Done => (
                enter(s, ImportPhase::Lookup),
                ActionView::Select(select_repositories_by_name_text(s.repository_name)),
            ),
            _ => unexpected,
        },
        ImportPhase::Lookup => match e {
            EventView::Rows(rows) => if rows.len() == 0 {
                (enter(s, ImportPhase::Failed), ActionView::Abort(ImportError::RepositoryNotFound))
            } else {
                (
                    ImportView {
                        queries: import_queries(rows[0].id, s.commits),
                        next: 0,
                        phase: ImportPhase::Announced,
                        ..s
                    },
                    ActionView::Print(announce_text(rows[0].name)),
                )
            },
            _ => unexpected,
        },
        ImportPhase::Announced => match e {
            EventView::Done => if s.queries.len() > 0 {
                (enter(s, ImportPhase::Inserting), ActionView::Update(s.queries[0]))
            } else {
                (enter(s, ImportPhase::Reported), ActionView::Print(report_text(s.commits.len())))
            },
            _ => unexpected,
        },
        ImportPhase::Inserting => match e {
            EventView::Changes(n) => if n != 1 {
                (
                    enter(s, ImportPhase::Failed),
                    ActionView::Abort(ImportError::UnexpectedChanges(n as usize)),
                )
            } else if s.next + 1 < s.queries.len() {
                (
                    ImportView { next: s.next + 1, ..s },
                    ActionView::Update(s.queries[s.next + 1]),
                )
            } else {
                (
                    ImportView { next: s.next + 1, phase: ImportPhase::Reported, ..s },
                    ActionView::Print(report_text(s.commits.len())),
                )
            },
            _ => unexpected,
        },
        ImportPhase::Reported => match e {
            EventView::Done => (enter(s, ImportPhase::Finished), ActionView::Finish),
            _ => unexpected,
        },
        ImportPhase::Finished => (s, ActionView::Finish),
        ImportPhase::Failed => (s, ActionView::Abort(ImportError::Stopped)),
    }
}

impl CommitImport {
    /// The import is in a state that its steps can reach.
    pub closed spec fn wf(&self) -> bool {
        &&& self.phase == ImportPhase::Announced || self.phase == ImportPhase::Inserting
            || self.phase == ImportPhase::Reported ==> self.queries@.len() == self.commits@.len()
        &&& self.phase == ImportPhase::Announced ==> self.next == 0
        &&& self.phase == ImportPhase::Inserting ==> self.next < self.queries@.len()
    }

    /// An import of `commits` into the repository named `repository_name`,
    /// not yet started.
    pub fn new(repository_name: String, commits: Vec<Commit>) -> (s: Self)
        ensures
            s.wf(),
            s@ == initial_import(repository_name@, commits@.map_values(|c: Commit| c@)),
    {
        let s = CommitImport {
            repository_name,
            commits,
            queries: Vec::new(),
            next: 0,
            phase: ImportPhase::Start,
        };
        assert(s@.queries =~= Seq::<Seq<char>>::empty());
        s
    }

    /// Where the import stands.
    pub fn phase(&self) -> (p: ImportPhase)
        ensures
            p == self@.phase,
    {
        self.phase
    }

    /// Starts the import: the same step as [`CommitImport::resume`] with
    /// [`DbEvent::Done`].
    pub fn start(&mut self) -> (a: DbAction)
        requires
            old(self).wf(),
        ensures
            final(self).wf(),
            (final(self)@, a@) == import_step(old(self)@, EventView::Done),
    {
        self.resume(DbEvent::Done)
    }

    /// Takes what came of the last action and returns the next one.
    pub fn resume(&mut self, event: DbEvent) -> (a: DbAction)
        requires
            old(self).wf(),
        ensures
            final(self).wf(),
            (final(self)@, a@) == import_step(old(self)@, event@),
    {
        let ghost s0 = self@;
        match self.phase {
            ImportPhase::Start => {
                self.phase = ImportPhase::RepositoriesTable;
                DbAction::Execute(create_repositories_table().to_owned())
            },
            ImportPhase::RepositoriesTable => match event {
                DbEvent::Done => {
                    self.phase = ImportPhase::CommitsTable;
                    DbAction::Execute(create_commits_table().to_owned())
                },
                _ => {
                    self.phase = ImportPhase::Failed;
                    DbAction::Abort(ImportError::UnexpectedEvent)
                },
            },
            ImportPhase::CommitsTable => match event {
                DbEvent::Done => {
                    self.phase = ImportPhase::RepositoryRow;
                    DbAction::Execute(insert_repository(&self.repository_name))
                },
                _ => {
                    self.phase = ImportPhase::Failed;
                    DbAction::Abort(ImportError::UnexpectedEvent)
                },
            },
            ImportPhase::RepositoryRow => match event {
                DbEvent::Done => {
                    self.phase = ImportPhase::Lookup;
                    DbAction::Select(select_repositories_by_name(&self.repository_name))
                },
                _ => {
                    self.phase = ImportPhase::Failed;
                    DbAction::Abort(ImportError::UnexpectedEvent)
                },
            },
            ImportPhase::Lookup => match event {
                DbEvent::Rows(rows) => {
                    if rows.len() == 0 {
                        self.phase = ImportPhase::Failed;
                        DbAction::Abort(ImportError::RepositoryNotFound)
                    } else {
                        let queries = insert_commit(rows[0].id, &self.commits);
                        self.queries = queries;
                        self.next = 0;
                        self.phase = ImportPhase::Announced;
                        assert(self@.queries =~= import_queries(rows@[0]@.id, s0.commits));
                        let mut message = String::from_str("insert repository ");
                        message.append(rows[0].name.as_str());
                        DbAction::Print(message)
                    }
                },
                _ => {
                    self.phase = ImportPhase::Failed;
                    DbAction::Abort(ImportError::UnexpectedEvent)
                },
            },
            ImportPhase::Announced => match event {
                DbEvent::Done => {
                    if self.queries.len() > 0 {
                        self.phase = ImportPhase::Inserting;
                        DbAction::Update(self.queries[0].clone())
                    } else {
                        self.phase = ImportPhase::Reported;
                        DbAction::Print(self.report())
                    }
                },
                _ => {
                    self.phase = ImportPhase::Failed;
                    DbAction::Abort(ImportError::UnexpectedEvent)
                },
            },
            ImportPhase::Inserting => match event {
                DbEvent::Changes(n) => {
                    let count: usize = self.queries.len();
                    if n != 1 {
                        self.phase = ImportPhase::Failed;
                        DbAction::Abort(ImportError::UnexpectedChanges(n))
                    } else if self.next + 1 < count {
                        self.next = self.next + 1;
                        DbAction::Update(self.queries[self.next].clone())
                    } else {
                        self.next = self.next + 1;
                        self.phase = ImportPhase::Reported;
                        DbAction::Print(self.report())
                    }
                },
                _ => {
                    self.phase = ImportPhase::Failed;
                    DbAction::Abort(ImportError::UnexpectedEvent)
                },
            },
            ImportPhase::Reported => match event {
                DbEvent::Done => {
                    self.phase = ImportPhase::Finished;
                    DbAction::Finish
                },
                _ => {
                    self.phase = ImportPhase::Failed;
                    DbAction::Abort(ImportError::UnexpectedEvent)
                },
            },
            ImportPhase::Finished => DbAction::Finish,
            ImportPhase::Failed => DbAction::Abort(ImportError::Stopped),
        }
    }

    fn report(&self) -> (m: String)
        ensures
            m@ == report_text(self@.commits.len()),
    {
        let mut m = String::from_str("insert ");
        push_u64_decimal(&mut m, self.commits.len() as u64);
        m.append(" commits");
        m
    }
}

/// The actions that an import hands out when it is given `events` one by
/// one, starting in state `s`.
pub open spec fn run_import(s: ImportView, events: Seq<EventView>) -> Seq<ActionView>
    decreases events.len(),
{
    if events.len() == 0 {
        Seq::empty()
    } else {
        let (t, a) = import_step(s, events[0]);
        seq![a] + run_import(t, events.drop_first())
    }
}

/// `n` updates that each changed one row.
pub open spec fn single_changes(n: nat) -> Seq<EventView> {
    Seq::new(n, |i: int| EventView::Changes(1))
}

/// What the store answers when everything goes through: the statements
/// run, the repository is read back as `rows`, and each of `n` inserts
/// changes one row.
pub open spec fn successful_events(rows: Seq<RepositoryView>, n: nat) -> Seq<EventView> {
    seq![
        EventView::Done,
        EventView::Done,
        EventView::Done,
        EventView::Done,
        EventView::Rows(rows),
        EventView::Done,
    ] + single_changes(n) + seq![EventView::Done]
}

/// The actions of an import that goes through: create both tables, record
/// the repository, read it back, announce it, insert each commit in order
/// under the row id that was read, report the count, finish.
pub open spec fn successful_actions(
    name: Seq<char>,
    commits: Seq<CommitView>,
    row: RepositoryView,
) -> Seq<ActionView> {
    seq![
        ActionView::Execute(create_repositories_table_text()),
        ActionView::Execute(create_commits_table_text()),
        ActionView::Execute(insert_repository_text(name)),
        ActionView::Select(select_repositories_by_name_text(name)),
        ActionView::Print(announce_text(row.name)),
    ] + import_queries(row.id, commits).map_values(|q: Seq<char>| ActionView::Update(q)) + seq![
        ActionView::Print(report_text(commits.len())),
        ActionView::Finish,
    ]
}

proof fn lemma_run_inserting(s: ImportView, k: int)
    requires
        s.phase == ImportPhase::Inserting,
        s.next == k,
        0 <= k < s.queries.len(),
    ensures
        run_import(s, single_changes((s.queries.len() - k) as nat) + seq![EventView::Done])
            == s.queries.subrange(k + 1, s.queries.len() as int).map_values(
            |q: Seq<char>| ActionView::Update(q),
        ) + seq![ActionView::Print(report_text(s.commits.len())), ActionView::Finish],
    decreases s.queries.len() - k,
{
    let n: int = s.queries.len() as int;
    let events = single_changes((n - k) as nat) + seq![EventView::Done];
    let (t, a) = import_step(s, events[0]);
    assert(events[0] == EventView::Changes(1));
    if k + 1 < n {
        assert(events.drop_first() =~= single_changes((n - (k + 1)) as nat) + seq![EventView::Done]);
        lemma_run_inserting(t, k + 1);
        assert(s.queries.subrange(k + 1, n).map_values(|q: Seq<char>| ActionView::Update(q))
            =~= seq![ActionView::Update(s.queries[k + 1])] + s.queries.subrange(k + 2, n).map_values(
            |q: Seq<char>| ActionView::Update(q),
        ));
        assert(run_import(s, events) =~= seq![a] + run_import(t, events.drop_first()));
    } else {
        assert(events.drop_first() =~= seq![EventView::Done]);
        let (u, b) = import_step(t, EventView::Done);
        assert(seq![EventView::Done].drop_first() =~= Seq::<EventView>::empty());
        assert(run_import(t, seq![EventView::Done]) =~= seq![b] + run_import(u, Seq::empty()));
        assert(s.queries.subrange(k + 1, n).map_values(|q: Seq<char>| ActionView::Update(q))
            =~= Seq::<ActionView>::empty());
        assert(run_import(s, events) =~= seq![a] + run_import(t, events.drop_first()));
    }
}

/// An import that the store answers with success issues exactly these
/// statements, in this order: it creates the tables, records the
/// repository, reads it back, announces it, inserts every commit in order
/// under the row id of the first row read, reports the count and finishes.
pub proof fn lemma_successful_import(
    name: Seq<char>,
    commits: Seq<CommitView>,
    rows: Seq<RepositoryView>,
)
    requires
        rows.len() > 0,
    ensures
        run_import(initial_import(name, commits), successful_events(rows, commits.len()))
            == successful_actions(name, commits, rows[0]),
{
    let n: nat = commits.len();
    let events = successful_events(rows, n);
    let s0 = initial_import(name, commits);
    let (s1, a1) = import_step(s0, events[0]);
    let (s2, a2) = import_step(s1, events[1]);
    let (s3, a3) = import_step(s2, events[2]);
    let (s4, a4) = import_step(s3, events[3]);
    let (s5, a5) = import_step(s4, events[4]);
    let (s6, a6) = import_step(s5, events[5]);
    let tail = single_changes(n) + seq![EventView::Done];
    assert(events.drop_first() =~= events.subrange(1, events.len() as int));
    assert(events.subrange(1, events.len() as int).drop_first() =~= events.subrange(2, events.len() as int));
    assert(events.subrange(2, events.len() as int).drop_first() =~= events.subrange(3, events.len() as int));
    assert(events.subrange(3, events.len() as int).drop_first() =~= events.subrange(4, events.len() as int));
    assert(events.subrange(4, events.len() as int).drop_first() =~= events.subrange(5, events.len() as int));
    assert(events.subrange(5, events.len() as int).drop_first() =~= tail);
    let queries = import_queries(rows[0].id, commits);
    assert(s5.queries == queries);
    let updates = queries.map_values(|q: Seq<char>| ActionView::Update(q));
    if n > 0 {
        assert(s6.phase == ImportPhase::Inserting);
        assert(tail[0] == EventView::Changes(1));
        lemma_run_inserting(s6, 0);
        assert(tail =~= single_changes((s6.queries.len() - 0) as nat) + seq![EventView::Done]);
        assert(updates =~= seq![ActionView::Update(queries[0])] + queries.subrange(1, n as int).map_values(
            |q: Seq<char>| ActionView::Update(q),
        ));
    } else {
        let (s7, a7) = import_step(s6, EventView::Done);
        assert(tail =~= seq![EventView::Done]);
        assert(tail.drop_first() =~= Seq::<EventView>::empty());
        assert(run_import(s6, tail) =~= seq![a7] + run_import(s7, Seq::empty()));
        assert(updates =~= Seq::<ActionView>::empty());
    }
    assert(run_import(s0, events) =~= seq![a1, a2, a3, a4, a5, a6] + run_import(s6, tail)) by {
        assert(run_import(s0, events) == seq![a1] + run_import(s1, events.subrange(1, events.len() as int)));
        assert(run_import(s1, events.subrange(1, events.len() as int)) == seq![a2] + run_import(s2, events.subrange(2, events.len() as int)));
        assert(run_import(s2, events.subrange(2, events.len() as int)) == seq![a3] + run_import(s3, events.subrange(3, events.len() as int)));
        assert(run_import(s3, events.subrange(3, events.len() as int)) == seq![a4] + run_import(s4, events.subrange(4, events.len() as int)));
        assert(run_import(s4, events.subrange(4, events.len() as int)) == seq![a5] + run_import(s5, events.subrange(5, events.len() as int)));
        assert(run_import(s5, events.subrange(5, events.len() as int)) == seq![a6] + run_import(s6, tail));
    }
}

} // verus!
