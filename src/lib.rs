//! Recall recent commit activity across local repositories: the rules that
//! pick the time window, build the log query, and lay out the results.
pub mod cli;
pub mod date;
pub mod text;
pub mod git;
pub mod output;
pub mod repo;
