//! What the tool asks GitHub for, and what it keeps of the answer.

use vstd::prelude::*;
use vstd::string::*;

use crate::model::{Commit, CommitView};

verus! {

/// One element of GitHub's list of commits: the part the tool keeps.
#[derive(Debug)]
pub struct CommitEntity {
    pub commit: Commit,
}

/// The address of the list of commits of `repo` (`owner/name`).
pub open spec fn commits_url_text(repo: Seq<char>) -> Seq<char> {
    "https://api.github.com/repos/"@ + repo + "/commits"@
}

/// The address of the list of commits of `repo` (`owner/name`).
pub fn commits_url(repo: &str) -> (url: String)
    ensures
        url@ == commits_url_text(repo@),
{
    let mut url = String::from_str("https://api.github.com/repos/");
    url.append(repo);
    url.append("/commits");
    url
}

/// The commits of a fetch: those of the entities GitHub answered with, in
/// order, or none when the request failed.
pub fn commits_from_response(entities: Option<Vec<CommitEntity>>) -> (commits: Vec<Commit>)
    ensures
        commits@.map_values(|c: Commit| c@) == match entities {
            Some(es) => es@.map_values(|e: CommitEntity| e.commit@),
            None => Seq::<CommitView>::empty(),
        },
{
    match entities {
        None => {
            let v: Vec<Commit> = Vec::new();
            assert(v@.map_values(|c: Commit| c@) =~= Seq::<CommitView>::empty());
            v
        },
        Some(es) => {
            let ghost all = es@;
            let mut commits: Vec<Commit> = Vec::new();
            for entity in it: es
                invariant
                    it.seq() == all,
                    commits@.len() == it.index(),
                    forall|k: int| 0 <= k < it.index() ==> #[trigger] commits@[k]@ == all[k].commit@,
            {
                commits.push(entity.commit);
            }
            assert(commits@.map_values(|c: Commit| c@) =~= all.map_values(|e: CommitEntity| e.commit@));
            commits
        },
    }
}

} // verus!
