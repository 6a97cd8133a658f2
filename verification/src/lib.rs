//! Commit message search: the query texts that keep the commit store,
//! the plan that imports a repository's commits into it, the command
//! that a command line selects, and the interactive search screen.

pub mod cref;
pub mod db;
pub mod errors;
pub mod github;
pub mod model;
pub mod text;
pub mod view;
