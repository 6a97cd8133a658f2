use cref::db::query::{
    create_commits_table, create_repositories_table, insert_commit, insert_repository,
    select_repositories_by_name,
};
use cref::db::{CommitImport, DbAction, DbEvent, ImportError, ImportPhase};
use cref::model::{Commit, Repository};

fn commits(n: usize) -> Vec<Commit> {
    (0..n)
        .map(|i| Commit { url: format!("https://example.com/{}", i), message: format!("m{}", i) })
        .collect()
}

fn row(id: i32, name: &str) -> Repository {
    Repository { id, name: name.to_string() }
}

fn exec_text(a: &DbAction) -> String {
    match a {
        DbAction::Execute(q) => format!("exec {}", q),
        DbAction::Select(q) => format!("select {}", q),
        DbAction::Update(q) => format!("update {}", q),
        DbAction::Print(m) => format!("print {}", m),
        DbAction::Finish => "finish".to_string(),
        DbAction::Abort(e) => format!("abort {:?}", e),
    }
}

#[test]
fn successful_import_issues_every_statement_in_order() {
    let name = "rejasupotaro/cref".to_string();
    let cs = commits(3);
    let expected_inserts = insert_commit(9, &cs);
    let mut import = CommitImport::new(name.clone(), cs);
    let mut log = vec![exec_text(&import.start())];
    log.push(exec_text(&import.resume(DbEvent::Done)));
    log.push(exec_text(&import.resume(DbEvent::Done)));
    log.push(exec_text(&import.resume(DbEvent::Done)));
    log.push(exec_text(&import.resume(DbEvent::Rows(vec![row(9, "rejasupotaro/cref"), row(10, "x")]))));
    log.push(exec_text(&import.resume(DbEvent::Done)));
    for _ in 0..3 {
        log.push(exec_text(&import.resume(DbEvent::Changes(1))));
    }
    log.push(exec_text(&import.resume(DbEvent::Done)));
    let mut expected = vec![
        format!("exec {}", create_repositories_table()),
        format!("exec {}", create_commits_table()),
        format!("exec {}", insert_repository(&name)),
        format!("select {}", select_repositories_by_name(&name)),
        "print insert repository rejasupotaro/cref".to_string(),
    ];
    for q in expected_inserts {
        expected.push(format!("update {}", q));
    }
    expected.push("print insert 3 commits".to_string());
    expected.push("finish".to_string());
    assert_eq!(log, expected);
    assert_eq!(import.phase(), ImportPhase::Finished);
    assert!(matches!(import.resume(DbEvent::Done), DbAction::Finish));
}

#[test]
fn import_of_no_commits_reports_zero() {
    let mut import = CommitImport::new("a/b".to_string(), Vec::new());
    import.start();
    import.resume(DbEvent::Done);
    import.resume(DbEvent::Done);
    import.resume(DbEvent::Done);
    let a = import.resume(DbEvent::Rows(vec![row(1, "a/b")]));
    assert_eq!(exec_text(&a), "print insert repository a/b");
    assert_eq!(exec_text(&import.resume(DbEvent::Done)), "print insert 0 commits");
    assert!(matches!(import.resume(DbEvent::Done), DbAction::Finish));
}

#[test]
fn import_stops_when_the_repository_is_not_read_back() {
    let mut import = CommitImport::new("a/b".to_string(), commits(1));
    import.start();
    import.resume(DbEvent::Done);
    import.resume(DbEvent::Done);
    import.resume(DbEvent::Done);
    let a = import.resume(DbEvent::Rows(Vec::new()));
    assert!(matches!(a, DbAction::Abort(ImportError::RepositoryNotFound)));
    assert_eq!(import.phase(), ImportPhase::Failed);
    assert!(matches!(import.resume(DbEvent::Done), DbAction::Abort(ImportError::Stopped)));
}

#[test]
fn import_stops_when_an_insert_changes_other_than_one_row() {
    let mut import = CommitImport::new("a/b".to_string(), commits(2));
    import.start();
    import.resume(DbEvent::Done);
    import.resume(DbEvent::Done);
    import.resume(DbEvent::Done);
    import.resume(DbEvent::Rows(vec![row(5, "a/b")]));
    import.resume(DbEvent::Done);
    let a = import.resume(DbEvent::Changes(0));
    assert!(matches!(a, DbAction::Abort(ImportError::UnexpectedChanges(0))));
}

#[test]
fn import_stops_on_an_event_that_does_not_answer() {
    let mut import = CommitImport::new("a/b".to_string(), commits(2));
    import.start();
    let a = import.resume(DbEvent::Changes(1));
    assert!(matches!(a, DbAction::Abort(ImportError::UnexpectedEvent)));
}
