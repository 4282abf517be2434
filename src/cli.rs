use vstd::prelude::*;

verus! {

/// Configuration read once from the command line and only read afterwards.
pub struct Args {
    /// Author to restrict the search to; "all" matches every author.
    pub author: Option<String>,
    /// Branch to restrict the search to; unset means every local branch.
    pub branch: Option<String>,
    /// Weekday range such as "MON-FRI".
    pub weekdays: String,
    /// Depth of the recursive directory search.
    pub max_depth: usize,
    /// Search to the full depth even below a repository.
    pub force_recursion: bool,
    /// Follow symbolic links while searching.
    pub follow_links: bool,
    /// Number of days back to include.
    pub days: Option<u32>,
    /// Number of days back until which commits are shown.
    pub until_days: Option<u32>,
    /// Date format handed to the log query.
    pub date_format: String,
    /// Show commits after this date (YYYY-MM-DD).
    pub after: Option<String>,
    /// Show commits before this date (YYYY-MM-DD).
    pub before: Option<String>,
    /// Show the signature status of each commit.
    pub gpg_sign: bool,
    /// Fetch the latest commits beforehand.
    pub fetch: bool,
    /// Silence the no-activity message.
    pub silent: bool,
    /// Show a diffstat for every matched commit.
    pub diff_stat: bool,
    /// Write a plain-text report file instead of printing.
    pub report: bool,
    /// Show the author date instead of the committer date.
    pub author_date: bool,
}

} // verus!
