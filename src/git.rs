use vstd::prelude::*;

use crate::cli::Args;
use crate::date::days_ago;
use crate::output::{lines_of, split_lines};
use crate::text::{joined, push_decimal, same_text, trim_of, trimmed};

verus! {

/// A branch name paired with the raw output of the log query on it.
pub struct BranchCommits {
    pub branch: String,
    pub output: String,
}

/// The author pattern of the log query: "all" matches everyone, a given name
/// is used as it is, and without one the configured identity is used, trimmed.
pub open spec fn author_spec(author_arg: Option<String>, configured: Seq<char>) -> Seq<char> {
    match author_arg {
        Some(a) => if a@ == "all"@ {
            ".*"@
        } else {
            a@
        },
        None => trim_of(configured),
    }
}

/// Resolves the author pattern; `configured` is the identity that the
/// version-control configuration holds, read only where no author is given.
pub fn resolve_author(author_arg: &Option<String>, configured: &str) -> (r: String)
    ensures
        r@ == author_spec(*author_arg, configured@),
{
    match author_arg {
        Some(a) => if same_text(a.as_str(), "all") {
            String::from_str(".*")
        } else {
            a.clone()
        },
        None => String::from_str(trimmed(configured)),
    }
}

/// The lines of `s` that hold more than white space.
pub open spec fn non_blank(ls: Seq<Seq<char>>) -> Seq<Seq<char>>
    decreases ls.len(),
{
    if ls.len() == 0 {
        Seq::empty()
    } else if trim_of(ls.last()).len() > 0 {
        non_blank(ls.drop_last()).push(ls.last())
    } else {
        non_blank(ls.drop_last())
    }
}

pub open spec fn views(v: Seq<String>) -> Seq<Seq<char>> {
    v.map_values(|s: String| s@)
}

/// The branch names listed in the output of the branch query, one per line,
/// blank lines left out.
pub fn parse_branches(listing: &str) -> (r: Vec<String>)
    ensures
        views(r@) == non_blank(lines_of(listing@)),
{
    let lines = split_lines(listing);
    let ghost all = views(lines@);
    assert(all =~= lines_of(listing@));
    let mut out: Vec<String> = Vec::new();
    let mut i: usize = 0;
    while i < lines.len()
        invariant
            i <= lines@.len(),
            all == views(lines@),
            views(out@) == non_blank(all.subrange(0, i as int)),
        decreases lines@.len() - i,
    {
        assert(all.subrange(0, i + 1).drop_last() =~= all.subrange(0, i as int));
        if trimmed(lines[i].as_str()).unicode_len() > 0 {
            out.push(lines[i].clone());
            assert(views(out@) =~= non_blank(all.subrange(0, i + 1)));
        }
        i += 1;
    }
    assert(all.subrange(0, i as int) =~= all);
    out
}

/// The branches to query: the one given, else every branch of the listing.
pub fn branches_to_query(branch_arg: &Option<String>, listing: &str) -> (r: Vec<String>)
    ensures
        views(r@) == match *branch_arg {
            Some(b) => seq![b@],
            None => non_blank(lines_of(listing@)),
        },
{
    match branch_arg {
        Some(b) => {
            let mut v: Vec<String> = Vec::new();
            v.push(b.clone());
            assert(views(v@) =~= seq![b@]);
            v
        },
        None => parse_branches(listing),
    }
}

/// The branches, each with its output, whose output holds more than white space.
pub open spec fn with_output(bs: Seq<Seq<char>>, os: Seq<Seq<char>>) -> Seq<(Seq<char>, Seq<char>)>
    decreases bs.len(),
{
    if bs.len() == 0 || os.len() == 0 {
        Seq::empty()
    } else if trim_of(os.last()).len() > 0 {
        with_output(bs.drop_last(), os.drop_last()).push((bs.last(), os.last()))
    } else {
        with_output(bs.drop_last(), os.drop_last())
    }
}

pub open spec fn commits_view(v: Seq<BranchCommits>) -> Seq<(Seq<char>, Seq<char>)> {
    v.map_values(|b: BranchCommits| (b.branch@, b.output@))
}

/// Pairs each branch with its log output, leaving out those whose output is blank.
pub fn collect_branch_commits(branches: &Vec<String>, outputs: Vec<String>) -> (r: Vec<BranchCommits>)
    requires
        branches@.len() == outputs@.len(),
    ensures
        commits_view(r@) == with_output(views(branches@), views(outputs@)),
{
    let ghost bs = views(branches@);
    let ghost os = views(outputs@);
    let mut out: Vec<BranchCommits> = Vec::new();
    let mut i: usize = 0;
    while i < branches.len()
        invariant
            i <= branches@.len(),
            branches@.len() == outputs@.len(),
            bs == views(branches@),
            os == views(outputs@),
            commits_view(out@) == with_output(bs.subrange(0, i as int), os.subrange(0, i as int)),
        decreases branches@.len() - i,
    {
        assert(bs.subrange(0, i + 1).drop_last() =~= bs.subrange(0, i as int));
        assert(os.subrange(0, i + 1).drop_last() =~= os.subrange(0, i as int));
        if trimmed(outputs[i].as_str()).unicode_len() > 0 {
            out.push(BranchCommits { branch: branches[i].clone(), output: outputs[i].clone() });
            assert(commits_view(out@) =~= with_output(bs.subrange(0, i + 1), os.subrange(0, i + 1)));
        }
        i += 1;
    }
    assert(bs.subrange(0, i as int) =~= bs);
    assert(os.subrange(0, i as int) =~= os);
    out
}

/// The pretty-format of the log query: commit id, subject, date, author, and
/// the signature status where asked for, each with its color.
pub open spec fn pretty_format(args: Args) -> Seq<char> {
    "%Cred%h%Creset - %s %Cgreen("@ + (if args.author_date { "%ad"@ } else { "%cd"@ })
        + ") %C(bold blue)<%an>%Creset"@ + (if args.gpg_sign {
        " %C(yellow)gpg: %G?%Creset"@
    } else {
        Seq::empty()
    })
}

/// The upper bound of the log query: a day count wins over a before-date.
pub open spec fn until_args(args: Args) -> Seq<Seq<char>> {
    if args.until_days is Some {
        seq!["--until="@ + days_ago(args.until_days->0)]
    } else if args.before is Some {
        seq!["--until="@ + args.before->0@]
    } else {
        Seq::empty()
    }
}

pub open spec fn after_args(args: Args) -> Seq<Seq<char>> {
    if args.after is Some {
        seq!["--after="@ + args.after->0@]
    } else {
        Seq::empty()
    }
}

/// The arguments of the log query on one branch.
pub open spec fn log_args_spec(branch: Seq<char>, author: Seq<char>, since: Seq<char>, args: Args) -> Seq<Seq<char>> {
    seq!["--no-pager"@, "log"@, branch, "--no-merges"@, "--since="@ + since] + until_args(args)
        + after_args(args) + seq![
        "--author="@ + author,
        "--abbrev-commit"@,
        "--oneline"@,
        "--pretty=format:"@ + pretty_format(args),
        "--date="@ + args.date_format@,
        "--color=always"@,
    ] + (if args.diff_stat { seq!["--stat"@] } else { Seq::empty() })
}

fn push_arg(v: &mut Vec<String>, s: String)
    ensures
        views(final(v)@) == views(old(v)@).push(s@),
{
    v.push(s);
    assert(views(final(v)@) =~= views(old(v)@).push(s@));
}

fn push_until(v: &mut Vec<String>, args: &Args)
    ensures
        views(final(v)@) == views(old(v)@) + until_args(*args),
{
    if let Some(until_days) = args.until_days {
        let mut s = String::from_str("--until=");
        push_decimal(&mut s, until_days);
        s.append(" days ago");
        assert(s@ =~= "--until="@ + days_ago(until_days));
        push_arg(v, s);
    } else if let Some(before) = &args.before {
        push_arg(v, joined("--until=", before.as_str()));
    }
    assert(views(final(v)@) =~= views(old(v)@) + until_args(*args));
}

fn push_after(v: &mut Vec<String>, args: &Args)
    ensures
        views(final(v)@) == views(old(v)@) + after_args(*args),
{
    if let Some(after) = &args.after {
        push_arg(v, joined("--after=", after.as_str()));
    }
    assert(views(final(v)@) =~= views(old(v)@) + after_args(*args));
}

fn pretty(args: &Args) -> (r: String)
    ensures
        r@ == pretty_format(*args),
{
    let mut format = String::from_str("%Cred%h%Creset - %s %Cgreen(");
    format.append(if args.author_date { "%ad" } else { "%cd" });
    format.append(") %C(bold blue)<%an>%Creset");
    if args.gpg_sign {
        format.append(" %C(yellow)gpg: %G?%Creset");
    }
    assert(format@ =~= pretty_format(*args));
    format
}

/// Builds the arguments of the log query on one branch: no merges, the time
/// window, the author, one colored line per commit, and the diffstat if asked.
pub fn log_args(branch: &str, author: &str, since: &str, args: &Args) -> (r: Vec<String>)
    ensures
        views(r@) == log_args_spec(branch@, author@, since@, *args),
{
    let mut v: Vec<String> = Vec::new();
    push_arg(&mut v, String::from_str("--no-pager"));
    push_arg(&mut v, String::from_str("log"));
    push_arg(&mut v, String::from_str(branch));
    push_arg(&mut v, String::from_str("--no-merges"));
    push_arg(&mut v, joined("--since=", since));
    let ghost a = views(v@);
    assert(a =~= seq!["--no-pager"@, "log"@, branch@, "--no-merges"@, "--since="@ + since@]);
    push_until(&mut v, args);
    push_after(&mut v, args);
    let ghost b = views(v@);
    push_arg(&mut v, joined("--author=", author));
    push_arg(&mut v, String::from_str("--abbrev-commit"));
    push_arg(&mut v, String::from_str("--oneline"));
    let format = pretty(args);
    push_arg(&mut v, joined("--pretty=format:", format.as_str()));
    push_arg(&mut v, joined("--date=", args.date_format.as_str()));
    push_arg(&mut v, String::from_str("--color=always"));
    let ghost c = views(v@);
    assert(c =~= b + seq![
        "--author="@ + author@,
        "--abbrev-commit"@,
        "--oneline"@,
        "--pretty=format:"@ + pretty_format(*args),
        "--date="@ + args.date_format@,
        "--color=always"@,
    ]);
    if args.diff_stat {
        push_arg(&mut v, String::from_str("--stat"));
    }
    assert(views(v@) =~= log_args_spec(branch@, author@, since@, *args));
    v
}

} // verus!
