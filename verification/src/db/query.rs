//! The SQL texts that create, fill, read and prune the commit store.

use vstd::prelude::*;
use vstd::string::*;

use crate::model::{Commit, CommitView};
use crate::text::{
    int_decimal, lemma_replace_char_absent, lemma_replace_char_concat, lemma_replace_char_excludes, push_i32_decimal, replace_char, replace_char_exec,
};

verus! {

/// Switches on foreign keys, so that deleting a repository deletes its commits.
pub fn enable_foreign_key() -> (q: &'static str)
    ensures
        q@ == "PRAGMA foreign_keys = ON"@,
{
    "PRAGMA foreign_keys = ON"
}

/// The text that creates the table of repositories, unless it exists.
pub open spec fn create_repositories_table_text() -> Seq<char> {
    "CREATE TABLE IF NOT EXISTS repositories (
        id      INTEGER PRIMARY KEY AUTOINCREMENT,
        name    VARCHAR NOT NULL UNIQUE
        )"@
}

/// Creates the table of repositories, unless it exists.
pub fn create_repositories_table() -> (q: &'static str)
    ensures
        q@ == create_repositories_table_text(),
{
    "CREATE TABLE IF NOT EXISTS repositories (
        id      INTEGER PRIMARY KEY AUTOINCREMENT,
        name    VARCHAR NOT NULL UNIQUE
        )"
}

/// The text that creates the table of commits, unless it exists.
pub open spec fn create_commits_table_text() -> Seq<char> {
    "CREATE TABLE IF NOT EXISTS commits (
        id            INTEGER PRIMARY KEY AUTOINCREMENT,
        url           VARCHAR NOT NULL UNIQUE,
        message       VARCHAR,
        repository_id INTERGER NOT NULL,
        FOREIGN KEY (repository_id) REFERENCES repositories(id) ON DELETE CASCADE
        )"@
}

/// Creates the table of commits, unless it exists.
pub fn create_commits_table() -> (q: &'static str)
    ensures
        q@ == create_commits_table_text(),
{
    "CREATE TABLE IF NOT EXISTS commits (
        id            INTEGER PRIMARY KEY AUTOINCREMENT,
        url           VARCHAR NOT NULL UNIQUE,
        message       VARCHAR,
        repository_id INTERGER NOT NULL,
        FOREIGN KEY (repository_id) REFERENCES repositories(id) ON DELETE CASCADE
        )"
}

/// The text that records a repository by name.
pub open spec fn insert_repository_text(name: Seq<char>) -> Seq<char> {
    "INSERT OR REPLACE INTO repositories (name) VALUES ('"@ + name + "')"@
}

/// Records (or re-records) the repository `repository_name`.
pub fn insert_repository(repository_name: &String) -> (q: String)
    ensures
        q@ == insert_repository_text(repository_name@),
{
    let mut q = String::from_str("INSERT OR REPLACE INTO repositories (name) VALUES ('");
    q.append(repository_name.as_str());
    q.append("')");
    q
}

/// A commit message as it is written into an insert: line breaks become
/// spaces and single quotes are dropped.
pub open spec fn clean_message(message: Seq<char>) -> Seq<char> {
    replace_char(replace_char(message, '\n', " "@), '\'', ""@)
}

/// The message with each line break turned into a space and each single
/// quote left out; every other character kept, in order.
pub open spec fn kept_message(message: Seq<char>) -> Seq<char> {
    message.map_values(|c: char| if c == '\n' { ' ' } else { c }).filter(|c: char| c != '\'')
}

/// The text that records one commit of the repository with row id `id`.
pub open spec fn insert_commit_text(id: int, commit: CommitView) -> Seq<char> {
    "INSERT OR REPLACE INTO commits (url, message, repository_id) VALUES ('"@ + commit.url
        + "', '"@ + clean_message(commit.message) + "', "@ + int_decimal(id) + ")"@
}

fn insert_one_commit(repository_id: i32, commit: &Commit) -> (q: String)
    ensures
        q@ == insert_commit_text(repository_id as int, commit@),
{
    let spaced = replace_char_exec(commit.message.as_str(), '\n', " ");
    let message = replace_char_exec(spaced.as_str(), '\'', "");
    let mut q = String::from_str(
        "INSERT OR REPLACE INTO commits (url, message, repository_id) VALUES ('",
    );
    q.append(commit.url.as_str());
    q.append("', '");
    q.append(message.as_str());
    q.append("', ");
    push_i32_decimal(&mut q, repository_id);
    q.append(")");
    q
}

/// One insert per commit, in the order of `commits`, each recording the
/// commit under the repository with row id `repository_id`.
pub fn insert_commit(repository_id: i32, commits: &Vec<Commit>) -> (qs: Vec<String>)
    ensures
        qs@.len() == commits@.len(),
        forall|i: int|
            0 <= i < commits@.len() ==> #[trigger] qs@[i]@ == insert_commit_text(
                repository_id as int,
                commits@[i]@,
            ),
        forall|i: int|
            0 <= i < commits@.len() ==> #[trigger] qs@[i]@
                == "INSERT OR REPLACE INTO commits (url, message, repository_id) VALUES ('"@
                + commits@[i].url@ + "', '"@ + kept_message(commits@[i].message@) + "', "@
                + int_decimal(repository_id as int) + ")"@,
{
    proof {
        assert forall|c: CommitView| true implies #[trigger] insert_commit_text(repository_id as int, c)
            == "INSERT OR REPLACE INTO commits (url, message, repository_id) VALUES ('"@ + c.url
            + "', '"@ + kept_message(c.message) + "', "@ + int_decimal(repository_id as int) + ")"@ by {
            lemma_insert_commit_text_keeps_message(repository_id as int, c);
        }
    }
    let mut qs: Vec<String> = Vec::new();
    let mut i: usize = 0;
    while i < commits.len()
        invariant
            i <= commits@.len(),
            qs@.len() == i,
            forall|k: int|
                0 <= k < i ==> #[trigger] qs@[k]@ == insert_commit_text(
                    repository_id as int,
                    commits@[k]@,
                ),
        decreases commits@.len() - i,
    {
        let q = insert_one_commit(repository_id, &commits[i]);
        qs.push(q);
        i = i + 1;
    }
    qs
}

/// The text that reads the repository named `name`.
pub open spec fn select_repositories_by_name_text(name: Seq<char>) -> Seq<char> {
    "SELECT * FROM repositories WHERE name='"@ + name + "'"@
}

/// Reads the repository named `repository_name`.
pub fn select_repositories_by_name(repository_name: &String) -> (q: String)
    ensures
        q@ == select_repositories_by_name_text(repository_name@),
{
    let mut q = String::from_str("SELECT * FROM repositories WHERE name='");
    q.append(repository_name.as_str());
    q.append("'");
    q
}

/// Reads every repository.
pub fn select_repositories() -> (q: String)
    ensures
        q@ == "SELECT * FROM repositories"@,
{
    String::from_str("SELECT * FROM repositories")
}

/// Reads every commit.
pub fn select_commits() -> (q: &'static str)
    ensures
        q@ == "SELECT * FROM commits"@,
{
    "SELECT * FROM commits"
}

/// The text that deletes the repository named `name`.
pub open spec fn delete_repository_by_name_text(name: Seq<char>) -> Seq<char> {
    "DELETE FROM repositories WHERE name='"@ + name + "'"@
}

/// Deletes the repository named `repository_name` (and, through the
/// foreign key, its commits).
pub fn delete_repository_by_name(repository_name: String) -> (q: String)
    ensures
        q@ == delete_repository_by_name_text(repository_name@),
{
    let mut q = String::from_str("DELETE FROM repositories WHERE name='");
    q.append(repository_name.as_str());
    q.append("'");
    q
}

/// A cleaned commit message holds no single quote and no line break, so it
/// can neither end the quoted SQL literal it stands in nor break the line.
pub proof fn lemma_clean_message_is_quote_free(message: Seq<char>)
    ensures
        !clean_message(message).contains('\''),
        !clean_message(message).contains('\n'),
{
    reveal_strlit(" ");
    reveal_strlit("");
    let spaced = replace_char(message, '\n', " "@);
    assert(!" "@.contains('\n'));
    assert(!" "@.contains('\''));
    lemma_replace_char_excludes(message, '\n', " "@, '\n');
    lemma_replace_char_excludes(spaced, '\'', ""@, '\'');
    lemma_replace_char_excludes(spaced, '\'', ""@, '\n');
}

/// Cleaning a message changes nothing but line breaks, which become
/// spaces, and single quotes, which are left out: every other character
/// is kept, in order.
pub proof fn lemma_clean_message_keeps_the_rest(message: Seq<char>)
    ensures
        clean_message(message) == kept_message(message),
    decreases message.len(),
{
    reveal_strlit(" ");
    reveal_strlit("");
    let g = |c: char| if c == '\n' { ' ' } else { c };
    let p = |c: char| c != '\'';
    if message.len() == 0 {
        assert(message.map_values(g) =~= Seq::<char>::empty());
        reveal(Seq::filter);
        assert(clean_message(message) =~= kept_message(message));
    } else {
        let rest = message.drop_last();
        let x = message.last();
        lemma_clean_message_keeps_the_rest(rest);
        assert(message =~= rest + seq![x]);
        lemma_replace_char_concat(rest, seq![x], '\n', " "@);
        let spaced_rest = replace_char(rest, '\n', " "@);
        let spaced_x = replace_char(seq![x], '\n', " "@);
        assert(seq![x].drop_last() =~= Seq::<char>::empty());
        assert(seq![x].last() == x);
        assert(replace_char(Seq::<char>::empty(), '\n', " "@) == Seq::<char>::empty());
        assert(" "@ =~= seq![' ']);
        if x == '\n' {
            assert(spaced_x == replace_char(Seq::<char>::empty(), '\n', " "@) + " "@);
            assert(Seq::<char>::empty() + " "@ =~= seq![' ']);
        } else {
            assert(spaced_x == replace_char(Seq::<char>::empty(), '\n', " "@).push(x));
            assert(Seq::<char>::empty().push(x) =~= seq![x]);
        }
        assert(spaced_x =~= seq![g(x)]);
        lemma_replace_char_concat(spaced_rest, seq![g(x)], '\'', ""@);
        assert(seq![g(x)].drop_last() =~= Seq::<char>::empty());
        let cleaned_x = replace_char(seq![g(x)], '\'', ""@);
        assert(seq![g(x)].last() == g(x));
        assert(replace_char(Seq::<char>::empty(), '\'', ""@) == Seq::<char>::empty());
        assert(""@ =~= Seq::<char>::empty());
        let mapped = message.map_values(g);
        assert(mapped.drop_last() =~= rest.map_values(g));
        assert(mapped.last() == g(x));
        reveal_with_fuel(Seq::<_>::filter, 1);
        if g(x) == '\'' {
            assert(cleaned_x =~= Seq::<char>::empty());
            assert(clean_message(message) =~= clean_message(rest) + cleaned_x);
            assert(mapped.filter(p) == rest.map_values(g).filter(p));
        } else {
            assert(cleaned_x =~= seq![g(x)]);
            assert(clean_message(message) =~= clean_message(rest) + cleaned_x);
            assert(mapped.filter(p) == rest.map_values(g).filter(p).push(g(x)));
        }
        assert(clean_message(message) =~= kept_message(message));
    }
}

/// An insert writes the url as given and the message with each line break
/// turned into a space and each single quote left out, nothing else
/// changed, then the repository id in decimal.
pub proof fn lemma_insert_commit_text_keeps_message(id: int, commit: CommitView)
    ensures
        insert_commit_text(id, commit)
            == "INSERT OR REPLACE INTO commits (url, message, repository_id) VALUES ('"@
            + commit.url + "', '"@ + kept_message(commit.message) + "', "@ + int_decimal(id)
            + ")"@,
{
    lemma_clean_message_keeps_the_rest(commit.message);
}

/// A message without line breaks and single quotes is written unchanged.
pub proof fn lemma_plain_message_written_unchanged(id: int, commit: CommitView)
    requires
        !commit.message.contains('\n'),
        !commit.message.contains('\''),
    ensures
        insert_commit_text(id, commit)
            == "INSERT OR REPLACE INTO commits (url, message, repository_id) VALUES ('"@
            + commit.url + "', '"@ + commit.message + "', "@ + int_decimal(id) + ")"@,
{
    reveal_strlit(" ");
    lemma_replace_char_absent(commit.message, '\n', " "@);
    lemma_replace_char_absent(commit.message, '\'', ""@);
}

} // verus!
