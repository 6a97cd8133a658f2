use cref::cref::{cref_dir, db_file, update_targets, Args, Command, VERSION};
use cref::errors::CrefError;
use cref::github::{commits_from_response, commits_url, CommitEntity};
use cref::model::{Commit, Repository};

fn args() -> Args {
    Args {
        cmd_import: false,
        cmd_list: false,
        cmd_update: false,
        cmd_delete: false,
        flag_version: false,
        arg_import_repo: vec!["a/b".to_string()],
        arg_update_repo: vec!["c/d".to_string()],
        arg_delete_repo: "e/f".to_string(),
    }
}

#[test]
fn commands_are_selected_in_order() {
    assert!(matches!(Command::from_args(args()), Command::Search));
    assert!(matches!(Command::from_args(Args { flag_version: true, ..args() }), Command::Version));
    match Command::from_args(Args { cmd_delete: true, flag_version: true, ..args() }) {
        Command::Delete(name) => assert_eq!(name, "e/f"),
        _ => panic!("expected delete"),
    }
    match Command::from_args(Args { cmd_update: true, cmd_delete: true, ..args() }) {
        Command::Update(names) => assert_eq!(names, vec!["c/d".to_string()]),
        _ => panic!("expected update"),
    }
    assert!(matches!(Command::from_args(Args { cmd_list: true, cmd_update: true, ..args() }),
        Command::List));
    match Command::from_args(Args { cmd_import: true, cmd_list: true, ..args() }) {
        Command::Import(names) => assert_eq!(names, vec!["a/b".to_string()]),
        _ => panic!("expected import"),
    }
    assert_eq!(VERSION, "0.0.1");
}

#[test]
fn store_lives_in_the_home_directory() {
    assert_eq!(cref_dir("/home/me"), "/home/me/.cref");
    assert_eq!(db_file("/home/me"), "/home/me/.cref/cref.db");
    assert_eq!(db_file("/root/"), "/root/.cref/cref.db");
}

#[test]
fn update_without_names_updates_every_stored_repository() {
    let stored = vec![
        Repository { id: 1, name: "square/okhttp".to_string() },
        Repository { id: 2, name: "square/retrofit".to_string() },
    ];
    assert_eq!(update_targets(Vec::new(), &stored),
        vec!["square/okhttp".to_string(), "square/retrofit".to_string()]);
    assert_eq!(update_targets(vec!["x/y".to_string()], &stored), vec!["x/y".to_string()]);
    assert!(update_targets(Vec::new(), &Vec::new()).is_empty());
}

#[test]
fn github_addresses_and_answers() {
    assert_eq!(commits_url("rejasupotaro/cref"),
        "https://api.github.com/repos/rejasupotaro/cref/commits");
    let entities = vec![
        CommitEntity { commit: Commit { url: "u1".to_string(), message: "m1".to_string() } },
        CommitEntity { commit: Commit { url: "u2".to_string(), message: "m2".to_string() } },
    ];
    let commits = commits_from_response(Some(entities));
    assert_eq!(commits.len(), 2);
    assert_eq!(commits[0].url, "u1");
    assert_eq!(commits[1].message, "m2");
    assert!(commits_from_response(None).is_empty());
}

#[test]
fn errors_keep_their_description() {
    let e = CrefError::from_error("no such table: commits".to_string());
    assert_eq!(e.description(), "no such table: commits");
}
