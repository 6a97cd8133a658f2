use cref::db::query::{
    create_commits_table, create_repositories_table, delete_repository_by_name,
    enable_foreign_key, insert_commit, insert_repository, select_commits,
    select_repositories, select_repositories_by_name,
};
use cref::model::Commit;

#[test]
fn test_insert_repository() {
    assert_eq!("INSERT OR REPLACE INTO repositories (name) VALUES ('rejasupotaro/cref')",
        insert_repository(&"rejasupotaro/cref".to_string()));
}

#[test]
fn test_select_repositories_by_name() {
    assert_eq!("SELECT * FROM repositories WHERE name='rejasupotaro/cref'",
        select_repositories_by_name(&"rejasupotaro/cref".to_string()));
}

#[test]
fn test_delete_repository_by_name() {
    assert_eq!("DELETE FROM repositories WHERE name='rejasupotaro/cref'",
        delete_repository_by_name("rejasupotaro/cref".to_string()));
}

#[test]
fn fixed_queries_read_as_written() {
    assert_eq!("PRAGMA foreign_keys = ON", enable_foreign_key());
    assert_eq!("SELECT * FROM repositories", select_repositories());
    assert_eq!("SELECT * FROM commits", select_commits());
    assert!(create_repositories_table().starts_with("CREATE TABLE IF NOT EXISTS repositories ("));
    assert!(create_repositories_table().contains("name    VARCHAR NOT NULL UNIQUE"));
    assert!(create_commits_table().starts_with("CREATE TABLE IF NOT EXISTS commits ("));
    assert!(create_commits_table()
        .contains("FOREIGN KEY (repository_id) REFERENCES repositories(id) ON DELETE CASCADE"));
}

fn commit(url: &str, message: &str) -> Commit {
    Commit { url: url.to_string(), message: message.to_string() }
}

#[test]
fn insert_commit_cleans_messages_and_keeps_order() {
    let commits = vec![
        commit("https://example.com/c/1", "Fix the parser\n\nIt didn't handle 'quotes'."),
        commit("https://example.com/c/2", "Plain message"),
    ];
    let queries = insert_commit(42, &commits);
    assert_eq!(queries.len(), 2);
    assert_eq!(queries[0],
        "INSERT OR REPLACE INTO commits (url, message, repository_id) VALUES \
         ('https://example.com/c/1', 'Fix the parser  It didnt handle quotes.', 42)");
    assert_eq!(queries[1],
        "INSERT OR REPLACE INTO commits (url, message, repository_id) VALUES \
         ('https://example.com/c/2', 'Plain message', 42)");
}

#[test]
fn insert_commit_writes_any_repository_id() {
    let commits = vec![commit("u", "m")];
    assert!(insert_commit(0, &commits)[0].ends_with("'m', 0)"));
    assert!(insert_commit(7, &commits)[0].ends_with("'m', 7)"));
    assert!(insert_commit(1234567890, &commits)[0].ends_with("'m', 1234567890)"));
    assert!(insert_commit(-15, &commits)[0].ends_with("'m', -15)"));
    assert!(insert_commit(i32::MAX, &commits)[0].ends_with("'m', 2147483647)"));
    assert!(insert_commit(i32::MIN, &commits)[0].ends_with("'m', -2147483648)"));
}

#[test]
fn insert_commit_of_no_commits_is_empty() {
    assert!(insert_commit(1, &Vec::new()).is_empty());
}

#[test]
fn insert_commit_keeps_non_ascii_text() {
    let commits = vec![commit("u", "修正: l'été\n✓")];
    assert!(insert_commit(3, &commits)[0].ends_with("'u', '修正: lété ✓', 3)"));
}

#[test]
fn names_are_written_as_given() {
    assert_eq!(insert_repository(&String::new()),
        "INSERT OR REPLACE INTO repositories (name) VALUES ('')");
    assert_eq!(select_repositories_by_name(&"a/b".to_string()),
        "SELECT * FROM repositories WHERE name='a/b'");
}
