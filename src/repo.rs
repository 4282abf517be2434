use vstd::prelude::*;

use crate::output::{lines_of, split_lines};
use crate::text::{same_text, trim_of, trimmed};

verus! {

/// The trimmed lines that hold more than white space.
pub open spec fn roots_spec(ls: Seq<Seq<char>>) -> Seq<Seq<char>>
    decreases ls.len(),
{
    if ls.len() == 0 {
        Seq::empty()
    } else if trim_of(ls.last()).len() > 0 {
        roots_spec(ls.drop_last()).push(trim_of(ls.last()))
    } else {
        roots_spec(ls.drop_last())
    }
}

/// The search roots that a whitelist file names: one relative path per line,
/// trimmed, blank lines left out.
pub fn whitelist_roots(content: &str) -> (r: Vec<String>)
    ensures
        r@.map_values(|s: String| s@) == roots_spec(lines_of(content@)),
{
    let lines = split_lines(content);
    let ghost all = lines@.map_values(|s: String| s@);
    assert(all =~= lines_of(content@));
    let mut out: Vec<String> = Vec::new();
    let mut i: usize = 0;
    while i < lines.len()
        invariant
            i <= lines@.len(),
            all == lines@.map_values(|s: String| s@),
            out@.map_values(|s: String| s@) == roots_spec(all.subrange(0, i as int)),
        decreases lines@.len() - i,
    {
        assert(all.subrange(0, i + 1).drop_last() =~= all.subrange(0, i as int));
        let t = trimmed(lines[i].as_str());
        if t.unicode_len() > 0 {
            let ghost before = out@;
            out.push(String::from_str(t));
            assert(out@.map_values(|s: String| s@) =~= before.map_values(|s: String| s@).push(t@));
        }
        i += 1;
    }
    assert(all.subrange(0, i as int) =~= all);
    out
}

/// Whether the directory walk enters an entry of this name: hidden entries
/// are skipped, all but the metadata directory itself.
pub open spec fn enters_spec(name: Seq<char>) -> bool {
    !(name.len() > 0 && name[0] == '.') || name == ".git"@
}

/// Whether the directory walk enters an entry of this name.
pub fn enters(name: &str) -> (r: bool)
    ensures
        r == enters_spec(name@),
{
    if name.unicode_len() > 0 && name.get_char(0) == '.' {
        same_text(name, ".git")
    } else {
        true
    }
}

/// Whether a walked entry marks its parent as a repository root: a directory
/// named after the metadata directory.
pub fn is_repo_marker(name: &str, is_dir: bool) -> (r: bool)
    ensures
        r == (is_dir && name@ == ".git"@),
{
    is_dir && same_text(name, ".git")
}

/// Whether the walk goes inside a directory of this name: not inside the
/// metadata directory, whose contents hold no repository root.
pub fn descends_into(name: &str) -> (r: bool)
    ensures
        r == (name@ != ".git"@),
{
    !same_text(name, ".git")
}

/// Whether discovery stops at the base directory: it is a repository itself
/// and recursion is not forced.
pub fn stops_at_base(base_is_repo: bool, force_recursion: bool) -> (r: bool)
    ensures
        r == (base_is_repo && !force_recursion),
{
    base_is_repo && !force_recursion
}

} // verus!
