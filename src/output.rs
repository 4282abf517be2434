use vstd::prelude::*;

use crate::git::{commits_view, with_output, BranchCommits};
use crate::text::{same_text, trim_of};

verus! {

/// What is left of `s` once every escape sequence is dropped: an ESC starts
/// one, and it runs up to and including the next 'm'.
pub open spec fn strip_from(s: Seq<char>, in_escape: bool) -> Seq<char>
    decreases s.len(),
{
    if s.len() == 0 {
        Seq::empty()
    } else if s[0] == '\x1b' {
        strip_from(s.drop_first(), true)
    } else if in_escape {
        strip_from(s.drop_first(), s[0] != 'm')
    } else {
        seq![s[0]] + strip_from(s.drop_first(), false)
    }
}

pub open spec fn strip_ansi(s: Seq<char>) -> Seq<char> {
    strip_from(s, false)
}

/// Removes the color-control escape sequences from a string.
pub fn strip_ansi_codes(s: &str) -> (r: String)
    ensures
        r@ == strip_ansi(s@),
{
    let n = s.unicode_len();
    let mut result = String::new();
    let mut in_escape = false;
    let mut i: usize = 0;
    assert(s@.subrange(0, n as int) =~= s@);
    while i < n
        invariant
            n == s@.len(),
            i <= n,
            result@ + strip_from(s@.subrange(i as int, n as int), in_escape) == strip_ansi(s@),
        decreases n - i,
    {
        let c = s.get_char(i);
        proof {
            let rest = s@.subrange(i as int, n as int);
            assert(rest.drop_first() =~= s@.subrange(i + 1, n as int));
        }
        if c == '\x1b' {
            in_escape = true;
        } else if in_escape {
            if c == 'm' {
                in_escape = false;
            }
        } else {
            let piece = s.substring_char(i, i + 1);
            assert(piece@ =~= seq![c]);
            result.append(piece);
            assert(result@ + strip_from(s@.subrange(i + 1, n as int), false) =~= strip_ansi(s@));
        }
        i += 1;
    }
    assert(s@.subrange(n as int, n as int) =~= Seq::<char>::empty());
    assert(result@ =~= strip_ansi(s@));
    result
}

/// The index of the first `c` at or after `k`, or the length where there is none.
pub open spec fn index_from(s: Seq<char>, k: int, c: char) -> int
    decreases s.len() - k,
{
    if k >= s.len() {
        s.len() as int
    } else if s[k] == c {
        k
    } else {
        index_from(s, k + 1, c)
    }
}

/// The index found lies between the start and the length.
pub proof fn lemma_index_from_bounds(s: Seq<char>, k: int, c: char)
    requires
        0 <= k <= s.len(),
    ensures
        k <= index_from(s, k, c) <= s.len(),
    decreases s.len() - k,
{
    if k < s.len() && s[k] != c {
        lemma_index_from_bounds(s, k + 1, c);
    }
}

/// The lines of `s` from position `k` on, split at '\n'; a '\r' just before a
/// '\n' belongs to the line ending, and a final line ending adds no empty line.
pub open spec fn lines_from(s: Seq<char>, k: int) -> Seq<Seq<char>>
    decreases s.len() - k,
{
    if k < 0 || k >= s.len() {
        Seq::empty()
    } else {
        proof {
            lemma_index_from_bounds(s, k, '\n');
        }
        let e = index_from(s, k, '\n');
        let line = s.subrange(k, e);
        let line = if e < s.len() && line.len() > 0 && line.last() == '\r' {
            line.drop_last()
        } else {
            line
        };
        if e < s.len() {
            seq![line] + lines_from(s, e + 1)
        } else {
            seq![line]
        }
    }
}

pub open spec fn lines_of(s: Seq<char>) -> Seq<Seq<char>> {
    lines_from(s, 0)
}

fn find_char(s: &str, from: usize, c: char) -> (r: usize)
    requires
        from <= s@.len(),
    ensures
        r as int == index_from(s@, from as int, c),
        from <= r <= s@.len(),
{
    let n = s.unicode_len();
    let mut i = from;
    while i < n
        invariant
            n == s@.len(),
            from <= i <= n,
            index_from(s@, i as int, c) == index_from(s@, from as int, c),
        decreases n - i,
    {
        if s.get_char(i) == c {
            return i;
        }
        i += 1;
    }
    i
}

/// Splits a string into its lines.
pub fn split_lines(s: &str) -> (r: Vec<String>)
    ensures
        r@.len() == lines_of(s@).len(),
        forall|j: int| 0 <= j < r@.len() ==> #[trigger] r@[j]@ == lines_of(s@)[j],
{
    let n = s.unicode_len();
    let mut out: Vec<String> = Vec::new();
    let mut k: usize = 0;
    while k < n
        invariant
            n == s@.len(),
            k <= n,
            forall|j: int| 0 <= j < out@.len() ==> #[trigger] out@[j]@ == lines_of(s@)[j],
            lines_of(s@) =~= Seq::new(out@.len(), |j: int| lines_of(s@)[j]) + lines_from(s@, k as int),
        decreases n - k,
    {
        let e = find_char(s, k, '\n');
        let mut end = e;
        if e < n && e > k && s.get_char(e - 1) == '\r' {
            end = e - 1;
        }
        let line = s.substring_char(k, end);
        proof {
            let full = s@.subrange(k as int, e as int);
            if end < e {
                assert(line@ =~= full.drop_last());
            }
            assert(lines_from(s@, k as int) == seq![line@] + lines_from(s@, e + 1));
        }
        out.push(String::from_str(line));
        k = if e < n { e + 1 } else { n };
        assert(lines_of(s@) =~= Seq::new(out@.len(), |j: int| lines_of(s@)[j]) + lines_from(s@, k as int));
    }
    out
}

proof fn lemma_index_from_none(s: Seq<char>, k: int, c: char)
    requires
        0 <= k <= s.len(),
        forall|i: int| k <= i < s.len() ==> s[i] != c,
    ensures
        index_from(s, k, c) == s.len(),
    decreases s.len() - k,
{
    if k < s.len() {
        lemma_index_from_none(s, k + 1, c);
    }
}

/// A non-empty string without a line break is one line: itself.
pub proof fn lemma_single_line(s: Seq<char>)
    requires
        s.len() > 0,
        forall|i: int| 0 <= i < s.len() ==> s[i] != '\n',
    ensures
        lines_of(s) == seq![s],
{
    lemma_index_from_none(s, 0, '\n');
    assert(s.subrange(0, s.len() as int) =~= s);
}

/// Each line preceded by two spaces and followed by a line break.
pub open spec fn indented(ls: Seq<Seq<char>>) -> Seq<char>
    decreases ls.len(),
{
    if ls.len() == 0 {
        Seq::empty()
    } else {
        indented(ls.drop_last()) + "  "@ + ls.last() + "\n"@
    }
}

/// The report's part for one branch: its name, then its output lines, plain.
pub open spec fn branch_block(b: BranchCommits) -> Seq<char> {
    "  "@ + b.branch@ + "\n"@ + indented(lines_of(strip_ansi(b.output@)))
}

pub open spec fn branch_blocks(bs: Seq<BranchCommits>) -> Seq<char>
    decreases bs.len(),
{
    if bs.len() == 0 {
        Seq::empty()
    } else {
        branch_blocks(bs.drop_last()) + branch_block(bs.last())
    }
}

/// The text that report mode appends for one repository: the path always
/// heads it.
pub open spec fn report_spec(path: Seq<char>, bs: Seq<BranchCommits>, silent: bool) -> Seq<char> {
    if bs.len() > 0 {
        path + "\n"@ + branch_blocks(bs)
    } else if !silent {
        path + "\nNo activity found!\n\n"@
    } else {
        path + "\n"@
    }
}

fn append_indented(out: &mut String, lines: &Vec<String>)
    ensures
        final(out)@ == old(out)@ + indented(lines@.map_values(|l: String| l@)),
{
    let ghost views = lines@.map_values(|l: String| l@);
    let mut i: usize = 0;
    while i < lines.len()
        invariant
            i <= lines@.len(),
            views == lines@.map_values(|l: String| l@),
            out@ == old(out)@ + indented(views.subrange(0, i as int)),
        decreases lines@.len() - i,
    {
        out.append("  ");
        out.append(lines[i].as_str());
        out.append("\n");
        proof {
            assert(views.subrange(0, i + 1).drop_last() =~= views.subrange(0, i as int));
            assert(out@ =~= old(out)@ + indented(views.subrange(0, i + 1)));
        }
        i += 1;
    }
    assert(views.subrange(0, i as int) =~= views);
}

/// The plain-text report for one repository: its path, then each branch with
/// the output lines stripped of escape sequences; where no branch has output,
/// the path and, unless silenced, a fixed notice.
pub fn report_text(display_path: &str, branch_commits: &Vec<BranchCommits>, silent: bool) -> (r: String)
    ensures
        r@ == report_spec(display_path@, branch_commits@, silent),
{
    let mut out = String::new();
    if branch_commits.len() > 0 {
        out.append(display_path);
        out.append("\n");
        let ghost head = out@;
        let mut i: usize = 0;
        while i < branch_commits.len()
            invariant
                i <= branch_commits@.len(),
                out@ == head + branch_blocks(branch_commits@.subrange(0, i as int)),
            decreases branch_commits@.len() - i,
        {
            let bc = &branch_commits[i];
            out.append("  ");
            out.append(bc.branch.as_str());
            out.append("\n");
            let clean = strip_ansi_codes(bc.output.as_str());
            let lines = split_lines(clean.as_str());
            append_indented(&mut out, &lines);
            proof {
                assert(lines@.map_values(|l: String| l@) =~= lines_of(strip_ansi(bc.output@)));
                assert(branch_commits@.subrange(0, i + 1).drop_last() =~= branch_commits@.subrange(0, i as int));
                assert(out@ =~= head + branch_blocks(branch_commits@.subrange(0, i + 1)));
            }
            i += 1;
        }
        assert(branch_commits@.subrange(0, i as int) =~= branch_commits@);
        assert(out@ =~= report_spec(display_path@, branch_commits@, silent));
    } else if !silent {
        out.append(display_path);
        out.append("\nNo activity found!\n\n");
        assert(out@ =~= report_spec(display_path@, branch_commits@, silent));
    } else {
        out.append(display_path);
        out.append("\n");
        assert(out@ =~= report_spec(display_path@, branch_commits@, silent));
    }
    out
}

/// How a line of terminal output is shown.
#[derive(Clone, Copy, Debug, PartialEq, Eq, Structural)]
pub enum LineStyle {
    /// The repository path.
    Header,
    /// A branch name, indented.
    Branch,
    /// A line of log output, indented.
    Commit,
    /// The no-activity message.
    Notice,
}

/// One line of terminal output and how it is shown.
pub struct TermLine {
    pub style: LineStyle,
    pub text: String,
}

pub open spec fn term_view(v: Seq<TermLine>) -> Seq<(LineStyle, Seq<char>)> {
    v.map_values(|l: TermLine| (l.style, l.text@))
}

pub open spec fn styled(style: LineStyle, ls: Seq<Seq<char>>) -> Seq<(LineStyle, Seq<char>)> {
    ls.map_values(|l: Seq<char>| (style, l))
}

pub open spec fn term_blocks(bs: Seq<BranchCommits>) -> Seq<(LineStyle, Seq<char>)>
    decreases bs.len(),
{
    if bs.len() == 0 {
        Seq::empty()
    } else {
        term_blocks(bs.drop_last()) + seq![(LineStyle::Branch, bs.last().branch@)]
            + styled(LineStyle::Commit, lines_of(bs.last().output@))
    }
}

/// The no-activity message: a general one when every author matches.
pub open spec fn notice_spec(author: Seq<char>) -> Seq<char> {
    if author == ".*"@ {
        "No commits found during this period."@
    } else {
        "No commits from "@ + author + " during this period."@
    }
}

/// The terminal output for one repository: its path always, then each branch
/// with its output lines as they are; where no branch has output, a notice
/// unless silenced.
pub open spec fn terminal_spec(path: Seq<char>, bs: Seq<BranchCommits>, author: Seq<char>, silent: bool) -> Seq<(LineStyle, Seq<char>)> {
    if bs.len() > 0 {
        seq![(LineStyle::Header, path)] + term_blocks(bs)
    } else if !silent {
        seq![(LineStyle::Header, path), (LineStyle::Notice, notice_spec(author))]
    } else {
        seq![(LineStyle::Header, path)]
    }
}

/// Of two branches, the first with log output and the second with none but
/// white space, only the first is kept, and the terminal then shows the
/// path, the first branch and the lines of its output: nothing of the second.
pub proof fn lemma_one_of_two_branches(
    path: Seq<char>,
    first: Seq<char>,
    second: Seq<char>,
    out1: Seq<char>,
    out2: Seq<char>,
    bs: Seq<BranchCommits>,
    author: Seq<char>,
    silent: bool,
)
    requires
        commits_view(bs) == with_output(seq![first, second], seq![out1, out2]),
        trim_of(out1).len() > 0,
        trim_of(out2).len() == 0,
    ensures
        bs.len() == 1,
        bs[0].branch@ == first,
        bs[0].output@ == out1,
        terminal_spec(path, bs, author, silent) == seq![(LineStyle::Header, path), (LineStyle::Branch, first)]
            + styled(LineStyle::Commit, lines_of(out1)),
{
    assert(seq![first, second].drop_last() =~= seq![first]);
    assert(seq![out1, out2].drop_last() =~= seq![out1]);
    assert(seq![first].drop_last() =~= Seq::<Seq<char>>::empty());
    assert(seq![out1].drop_last() =~= Seq::<Seq<char>>::empty());
    let e = Seq::<Seq<char>>::empty();
    assert(seq![out1, out2].last() == out2);
    assert(seq![out1].last() == out1);
    assert(seq![first].last() == first);
    assert(with_output(seq![first, second], seq![out1, out2]) == with_output(seq![first], seq![out1]));
    assert(with_output(seq![first], seq![out1]) == with_output(e, e).push((first, out1)));
    assert(with_output(seq![first, second], seq![out1, out2]) =~= seq![(first, out1)]);
    assert(commits_view(bs).len() == 1);
    assert(commits_view(bs)[0] == (bs[0].branch@, bs[0].output@));
    assert(bs.drop_last().len() == 0);
    assert(term_blocks(bs.drop_last()) =~= Seq::<(LineStyle, Seq<char>)>::empty());
    assert(terminal_spec(path, bs, author, silent) =~= seq![(LineStyle::Header, path), (LineStyle::Branch, first)]
        + styled(LineStyle::Commit, lines_of(out1)));
}

fn push_line(v: &mut Vec<TermLine>, style: LineStyle, text: String)
    ensures
        term_view(final(v)@) == term_view(old(v)@).push((style, text@)),
{
    v.push(TermLine { style, text });
    assert(term_view(final(v)@) =~= term_view(old(v)@).push((style, text@)));
}

/// Lays out the terminal output for one repository.
pub fn terminal_lines(display_path: &str, branch_commits: &Vec<BranchCommits>, author: &str, silent: bool) -> (r: Vec<TermLine>)
    ensures
        term_view(r@) == terminal_spec(display_path@, branch_commits@, author@, silent),
{
    let mut out: Vec<TermLine> = Vec::new();
    if branch_commits.len() > 0 {
        push_line(&mut out, LineStyle::Header, String::from_str(display_path));
        let ghost head = term_view(out@);
        let mut i: usize = 0;
        while i < branch_commits.len()
            invariant
                i <= branch_commits@.len(),
                term_view(out@) == head + term_blocks(branch_commits@.subrange(0, i as int)),
            decreases branch_commits@.len() - i,
        {
            let bc = &branch_commits[i];
            push_line(&mut out, LineStyle::Branch, bc.branch.clone());
            let lines = split_lines(bc.output.as_str());
            let ghost mid = term_view(out@);
            let mut j: usize = 0;
            while j < lines.len()
                invariant
                    j <= lines@.len(),
                    forall|k: int| 0 <= k < lines@.len() ==> #[trigger] lines@[k]@ == lines_of(bc.output@)[k],
                    lines@.len() == lines_of(bc.output@).len(),
                    term_view(out@) == mid + styled(LineStyle::Commit, lines_of(bc.output@).subrange(0, j as int)),
                decreases lines@.len() - j,
            {
                push_line(&mut out, LineStyle::Commit, lines[j].clone());
                assert(term_view(out@) =~= mid + styled(LineStyle::Commit, lines_of(bc.output@).subrange(0, j + 1)));
                j += 1;
            }
            proof {
                assert(lines_of(bc.output@).subrange(0, j as int) =~= lines_of(bc.output@));
                assert(branch_commits@.subrange(0, i + 1).drop_last() =~= branch_commits@.subrange(0, i as int));
                assert(term_view(out@) =~= head + term_blocks(branch_commits@.subrange(0, i + 1)));
            }
            i += 1;
        }
        assert(branch_commits@.subrange(0, i as int) =~= branch_commits@);
    } else if !silent {
        push_line(&mut out, LineStyle::Header, String::from_str(display_path));
        let notice = if same_text(author, ".*") {
            String::from_str("No commits found during this period.")
        } else {
            let mut m = String::from_str("No commits from ");
            m.append(author);
            m.append(" during this period.");
            m
        };
        assert(notice@ =~= notice_spec(author@));
        push_line(&mut out, LineStyle::Notice, notice);
        assert(term_view(out@) =~= terminal_spec(display_path@, branch_commits@, author@, silent));
    } else {
        push_line(&mut out, LineStyle::Header, String::from_str(display_path));
        assert(term_view(out@) =~= terminal_spec(display_path@, branch_commits@, author@, silent));
    }
    out
}

} // verus!
