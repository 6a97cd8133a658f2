//! The command line: which command it selects, where the store lives,
//! and which repositories an update refreshes.

use vstd::prelude::*;
use vstd::string::*;

use crate::model::{Repository, RepositoryView};
use crate::text::{path_join, path_join_exec};

verus! {

/// The version that `--version` prints.
pub const VERSION: &'static str = "0.0.1";

/// The command line, as the usage text reads it.
pub struct Args {
    pub cmd_import: bool,
    pub cmd_list: bool,
    pub cmd_update: bool,
    pub cmd_delete: bool,
    pub flag_version: bool,
    pub arg_import_repo: Vec<String>,
    pub arg_update_repo: Vec<String>,
    pub arg_delete_repo: String,
}

/// What the tool is asked to do.
pub enum Command {
    /// Fetch these repositories' commits and store them.
    Import(Vec<String>),
    /// Print the stored repositories.
    List,
    /// Fetch again the given repositories, or all stored ones when none is given.
    Update(Vec<String>),
    /// Delete this repository and its commits.
    Delete(String),
    /// Print the version.
    Version,
    /// Open the search screen.
    Search,
}

/// The command that `args` selects: the first of import, list, update,
/// delete and version that is set, else the search screen.
pub open spec fn selected_command(args: Args) -> Command {
    if args.cmd_import {
        Command::Import(args.arg_import_repo)
    } else if args.cmd_list {
        Command::List
    } else if args.cmd_update {
        Command::Update(args.arg_update_repo)
    } else if args.cmd_delete {
        Command::Delete(args.arg_delete_repo)
    } else if args.flag_version {
        Command::Version
    } else {
        Command::Search
    }
}

impl Command {
    /// The command that a command line selects.
    pub fn from_args(args: Args) -> (c: Command)
        ensures
            c == selected_command(args),
    {
        if args.cmd_import {
            Command::Import(args.arg_import_repo)
        } else if args.cmd_list {
            Command::List
        } else if args.cmd_update {
            Command::Update(args.arg_update_repo)
        } else if args.cmd_delete {
            Command::Delete(args.arg_delete_repo)
        } else if args.flag_version {
            Command::Version
        } else {
            Command::Search
        }
    }
}

/// The directory that holds the store, under the home directory `home`.
pub open spec fn cref_dir_path(home: Seq<char>) -> Seq<char> {
    path_join(home, ".cref"@)
}

/// The store's file, under the home directory `home`.
pub open spec fn db_file_path(home: Seq<char>) -> Seq<char> {
    path_join(cref_dir_path(home), "cref.db"@)
}

/// The directory that holds the store: `.cref` in the home directory.
pub fn cref_dir(home: &str) -> (dir: String)
    ensures
        dir@ == cref_dir_path(home@),
{
    path_join_exec(home, ".cref")
}

/// The store's file: `cref.db` in [`cref_dir`].
pub fn db_file(home: &str) -> (file: String)
    ensures
        file@ == db_file_path(home@),
{
    let dir = cref_dir(home);
    path_join_exec(dir.as_str(), "cref.db")
}

/// The names of the repositories that an update fetches: those requested,
/// or every stored one, in the store's order, when none is requested.
pub open spec fn update_targets_spec(requested: Seq<Seq<char>>, stored: Seq<RepositoryView>) -> Seq<Seq<char>> {
    if requested.len() == 0 {
        stored.map_values(|r: RepositoryView| r.name)
    } else {
        requested
    }
}

/// The repositories that an update fetches again.
pub fn update_targets(requested: Vec<String>, stored: &Vec<Repository>) -> (names: Vec<String>)
    ensures
        names@.map_values(|n: String| n@) == update_targets_spec(
            requested@.map_values(|n: String| n@),
            stored@.map_values(|r: Repository| r@),
        ),
        requested@.len() > 0 ==> names@.len() == requested@.len() && forall|i: int|
            0 <= i < requested@.len() ==> #[trigger] names@[i]@ == requested@[i]@,
        requested@.len() == 0 ==> names@.len() == stored@.len() && forall|i: int|
            0 <= i < stored@.len() ==> #[trigger] names@[i]@ == stored@[i].name@,
{
    proof {
        lemma_update_targets(
            requested@.map_values(|n: String| n@),
            stored@.map_values(|r: Repository| r@),
        );
    }
    if requested.len() > 0 {
        return requested;
    }
    let mut names: Vec<String> = Vec::new();
    let mut i: usize = 0;
    while i < stored.len()
        invariant
            i <= stored@.len(),
            names@.len() == i,
            forall|k: int| 0 <= k < i ==> #[trigger] names@[k]@ == stored@[k].name@,
        decreases stored@.len() - i,
    {
        names.push(stored[i].name.clone());
        i = i + 1;
    }
    assert(names@.map_values(|n: String| n@) =~= stored@.map_values(|r: Repository| r@).map_values(
        |r: RepositoryView| r.name,
    ));
    names
}

/// Which command a command line selects depends on its flags alone, in a
/// fixed order: import, then list, then update, then delete, then version,
/// else the search screen. Each command carries its own arguments as given,
/// whatever their number (`cref update` with no names is an update).
pub proof fn lemma_command_selection(args: Args)
    ensures
        args.cmd_import ==> selected_command(args) == Command::Import(args.arg_import_repo),
        !args.cmd_import && args.cmd_list ==> selected_command(args) == Command::List,
        !args.cmd_import && !args.cmd_list && args.cmd_update ==> selected_command(args)
            == Command::Update(args.arg_update_repo),
        !args.cmd_import && !args.cmd_list && !args.cmd_update && args.cmd_delete
            ==> selected_command(args) == Command::Delete(args.arg_delete_repo),
        !args.cmd_import && !args.cmd_list && !args.cmd_update && !args.cmd_delete
            && args.flag_version ==> selected_command(args) == Command::Version,
        !args.cmd_import && !args.cmd_list && !args.cmd_update && !args.cmd_delete
            && !args.flag_version ==> selected_command(args) == Command::Search,
{
}

/// An update fetches every requested repository, in the order requested;
/// when none is requested it fetches every stored repository, in the
/// store's order.
pub proof fn lemma_update_targets(requested: Seq<Seq<char>>, stored: Seq<RepositoryView>)
    ensures
        requested.len() > 0 ==> update_targets_spec(requested, stored).len() == requested.len()
            && forall|i: int|
            0 <= i < requested.len() ==> #[trigger] update_targets_spec(requested, stored)[i]
                == requested[i],
        requested.len() == 0 ==> update_targets_spec(requested, stored).len() == stored.len()
            && forall|i: int|
            0 <= i < stored.len() ==> #[trigger] update_targets_spec(requested, stored)[i]
                == stored[i].name,
{
}

/// The store is `.cref/cref.db` under the home directory: one `/` between
/// each part, none doubled when the home directory already ends in one.
pub proof fn lemma_db_file_under_home(home: Seq<char>)
    ensures
        home.len() > 0 && home.last() != '/' ==> db_file_path(home) == home + "/.cref/cref.db"@,
        home.len() > 0 && home.last() == '/' ==> db_file_path(home) == home + ".cref/cref.db"@,
{
    reveal_strlit("/.cref/cref.db");
    reveal_strlit(".cref/cref.db");
    reveal_strlit(".cref");
    reveal_strlit("cref.db");
    let dir = cref_dir_path(home);
    if home.len() > 0 && home.last() != '/' {
        assert(dir == home + seq!['/'] + ".cref"@);
        assert(dir.last() == 'f');
        assert(db_file_path(home) =~= home + "/.cref/cref.db"@);
    }
    if home.len() > 0 && home.last() == '/' {
        assert(dir == home + ".cref"@);
        assert(dir.last() == 'f');
        assert(db_file_path(home) =~= home + ".cref/cref.db"@);
    }
}

} // verus!
