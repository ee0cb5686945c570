//! Path resolution: home-shorthand expansion, splitting a requested file
//! name into directory part and base name, and joining path components.
//!
//! Paths are modelled as plain character sequences with `/` as the
//! directory separator. Joining adds a separator only when the left side
//! does not already end in one, and an empty left side yields the right
//! side alone.

use vstd::prelude::*;
use crate::config::Config;
use crate::outside::home_dir;

verus! {

/// Whether `s` holds a directory separator anywhere.
pub open spec fn spec_has_sep(s: Seq<char>) -> bool {
    exists|i: int| 0 <= i < s.len() && s[i] == '/'
}

/// Index of the last directory separator in `s`, or `-1` when there is
/// none.
pub open spec fn spec_last_sep(s: Seq<char>) -> int
    decreases s.len(),
{
    if s.len() == 0 {
        -1
    } else if s[s.len() - 1] == '/' {
        s.len() - 1
    } else {
        spec_last_sep(s.drop_last())
    }
}

/// `spec_last_sep` finds a separator exactly when one occurs, it points
/// at a separator, and no separator follows it.
pub proof fn lemma_last_sep(s: Seq<char>)
    ensures
        spec_last_sep(s) >= 0 <==> spec_has_sep(s),
        -1 <= spec_last_sep(s) < s.len(),
        spec_last_sep(s) >= 0 ==> s[spec_last_sep(s)] == '/',
        forall|j: int| spec_last_sep(s) < j < s.len() ==> s[j] != '/',
    decreases s.len(),
{
    if s.len() == 0 {
    } else if s[s.len() - 1] == '/' {
    } else {
        lemma_last_sep(s.drop_last());
        assert forall|i: int| 0 <= i < s.len() && s[i] == '/' implies spec_has_sep(
            s.drop_last(),
        ) by {
            assert(i < s.len() - 1);
            assert(s.drop_last()[i] == '/');
        }
        assert forall|j: int| spec_last_sep(s) < j < s.len() implies s[j] != '/' by {
            if j < s.len() - 1 {
                assert(s.drop_last()[j] == s[j]);
            }
        }
    }
}

/// A separator position with none after it is the last one.
pub proof fn lemma_last_sep_at(s: Seq<char>, k: int)
    requires
        0 <= k < s.len(),
        s[k] == '/',
        forall|j: int| k < j < s.len() ==> s[j] != '/',
    ensures
        spec_last_sep(s) == k,
    decreases s.len(),
{
    if k == s.len() - 1 {
    } else {
        assert(s[s.len() - 1] != '/');
        assert(s.drop_last()[k] == '/');
        lemma_last_sep_at(s.drop_last(), k);
    }
}

/// The final path component of `s`: what follows the last separator, or
/// all of `s` when it has none.
pub open spec fn spec_base_name(s: Seq<char>) -> Seq<char> {
    if spec_last_sep(s) >= 0 {
        s.subrange(spec_last_sep(s) + 1, s.len() as int)
    } else {
        s
    }
}

/// The components of `s` before the last separator; empty when `s` has
/// no separator.
pub open spec fn spec_dir_part(s: Seq<char>) -> Seq<char> {
    if spec_last_sep(s) >= 0 {
        s.subrange(0, spec_last_sep(s))
    } else {
        Seq::empty()
    }
}

/// `dir` and `rest` joined with a separator: the separator is added only
/// when `dir` does not already end in one, and an empty `dir` gives
/// `rest` alone.
pub open spec fn spec_join(dir: Seq<char>, rest: Seq<char>) -> Seq<char> {
    if dir.len() == 0 {
        rest
    } else if dir[dir.len() - 1] == '/' {
        dir + rest
    } else {
        dir + seq!['/'] + rest
    }
}

/// `p` with every `~` replaced by `home`.
pub open spec fn spec_expand_home(p: Seq<char>, home: Seq<char>) -> Seq<char>
    decreases p.len(),
{
    if p.len() == 0 {
        Seq::empty()
    } else if p[0] == '~' {
        home + spec_expand_home(p.skip(1), home)
    } else {
        seq![p[0]] + spec_expand_home(p.skip(1), home)
    }
}

/// The directory that holds a requested file: the expanded project root,
/// extended by the file name's directory part when it has one.
pub open spec fn spec_resolve_project_dir(
    root: Seq<char>,
    home: Seq<char>,
    name: Seq<char>,
) -> Seq<char> {
    if spec_has_sep(name) {
        spec_join(spec_expand_home(root, home), spec_dir_part(name))
    } else {
        spec_expand_home(root, home)
    }
}

/// The full path of a requested file: its directory joined with its base
/// name.
pub open spec fn spec_resolve_full_path(
    root: Seq<char>,
    home: Seq<char>,
    name: Seq<char>,
) -> Seq<char> {
    spec_join(spec_resolve_project_dir(root, home, name), spec_base_name(name))
}

/// Replaces every `~` in `p` with `home`.
pub fn expand_home(p: &str, home: &str) -> (r: String)
    ensures
        r@ == spec_expand_home(p@, home@),
{
    let n = p.unicode_len();
    let mut out = String::new();
    let mut i: usize = 0;
    proof {
        assert(p@.skip(0) =~= p@);
        assert(Seq::<char>::empty() + spec_expand_home(p@, home@) =~= spec_expand_home(p@, home@));
    }
    while i < n
        invariant
            n == p@.len(),
            i <= n,
            out@ + spec_expand_home(p@.skip(i as int), home@) == spec_expand_home(p@, home@),
        decreases n - i,
    {
        let ghost pre = out@;
        let ghost rest = p@.skip(i as int);
        proof {
            assert(rest[0] == p@[i as int]);
            assert(rest.skip(1) =~= p@.skip(i as int + 1));
        }
        let c = p.get_char(i);
        if c == '~' {
            out.append(home);
            proof {
                assert(out@ + spec_expand_home(p@.skip(i as int + 1), home@) =~= pre
                    + spec_expand_home(rest, home@));
            }
        } else {
            let piece = p.substring_char(i, i + 1);
            out.append(piece);
            proof {
                assert(piece@ =~= seq![rest[0]]);
                assert(out@ + spec_expand_home(p@.skip(i as int + 1), home@) =~= pre
                    + spec_expand_home(rest, home@));
            }
        }
        i += 1;
    }
    proof {
        assert(p@.skip(n as int) =~= Seq::<char>::empty());
        assert(out@ + spec_expand_home(Seq::<char>::empty(), home@) =~= out@);
    }
    out
}

/// Position of the last separator in `s`, when it has one.
fn find_last_sep(s: &str) -> (r: Option<usize>)
    ensures
        match r {
            Some(k) => k == spec_last_sep(s@) && spec_has_sep(s@),
            None => !spec_has_sep(s@),
        },
{
    let n = s.unicode_len();
    let mut i: usize = n;
    while i > 0
        invariant
            n == s@.len(),
            i <= n,
            forall|j: int| i <= j < n ==> s@[j] != '/',
        decreases i,
    {
        let c = s.get_char(i - 1);
        if c == '/' {
            proof {
                lemma_last_sep_at(s@, i - 1);
            }
            return Some(i - 1);
        }
        i -= 1;
    }
    proof {
        lemma_last_sep(s@);
    }
    None
}

/// The final path component of `file_name`.
pub fn base_name(file_name: &str) -> (r: String)
    ensures
        r@ == spec_base_name(file_name@),
{
    proof {
        lemma_last_sep(file_name@);
    }
    match find_last_sep(file_name) {
        Some(k) => {
            let n = file_name.unicode_len();
            let piece = file_name.substring_char(k + 1, n);
            piece.to_owned()
        },
        None => file_name.to_owned(),
    }
}

/// The components of `file_name` before its last separator.
pub fn dir_part(file_name: &str) -> (r: String)
    ensures
        r@ == spec_dir_part(file_name@),
{
    proof {
        lemma_last_sep(file_name@);
    }
    match find_last_sep(file_name) {
        Some(k) => {
            let piece = file_name.substring_char(0, k);
            piece.to_owned()
        },
        None => String::new(),
    }
}

/// Joins `dir` and `rest`, inserting a separator only where needed.
pub fn join(dir: &str, rest: &str) -> (r: String)
    ensures
        r@ == spec_join(dir@, rest@),
{
    let n = dir.unicode_len();
    if n == 0 {
        return rest.to_owned();
    }
    let last = dir.get_char(n - 1);
    let mut out = dir.to_owned();
    if last != '/' {
        out.append("/");
        proof {
            reveal_strlit("/");
            assert("/"@ =~= seq!['/']);
        }
    }
    out.append(rest);
    proof {
        if last == '/' {
            assert(out@ =~= dir@ + rest@);
        } else {
            assert(out@ =~= dir@ + seq!['/'] + rest@);
        }
    }
    out
}

impl Config {
    /// The directory a requested file lives in: the project root with the
    /// home shorthand expanded, extended by the file name's directory
    /// part when the name carries one. The caller is expected to create
    /// this directory (with its parents) before using it.
    pub fn resolve_project_dir(&self, home: &str, file_name: &str) -> (r: String)
        ensures
            r@ == spec_resolve_project_dir(self.project_dir@, home@, file_name@),
    {
        let root = expand_home(self.project_dir.as_str(), home);
        match find_last_sep(file_name) {
            Some(_) => {
                let d = dir_part(file_name);
                join(root.as_str(), d.as_str())
            },
            None => root,
        }
    }

    /// The full path of a requested file: its directory joined with its
    /// base name.
    pub fn resolve_full_path(&self, home: &str, file_name: &str) -> (r: String)
        ensures
            r@ == spec_resolve_full_path(self.project_dir@, home@, file_name@),
    {
        let dir = self.resolve_project_dir(home, file_name);
        let base = base_name(file_name);
        join(dir.as_str(), base.as_str())
    }

    /// The full path of a requested file under the home directory the
    /// platform reports, or `None` when it reports none.
    pub fn get_full_file_path(&self, file_name: &str) -> (r: Option<String>)
        ensures
            r matches Some(p) ==> exists|h: Seq<char>|
                p@ == spec_resolve_full_path(self.project_dir@, h, file_name@),
    {
        match home_dir() {
            Some(h) => {
                let full = self.resolve_full_path(h.as_str(), file_name);
                proof {
                    assert(full@ == spec_resolve_full_path(self.project_dir@, h@, file_name@));
                }
                Some(full)
            },
            None => None,
        }
    }
}

/// A file name without directory separators resolves to exactly the
/// expanded project root.
pub proof fn lemma_resolve_plain(root: Seq<char>, home: Seq<char>, name: Seq<char>)
    requires
        !spec_has_sep(name),
    ensures
        spec_resolve_project_dir(root, home, name) == spec_expand_home(root, home),
        spec_resolve_full_path(root, home, name) == spec_join(spec_expand_home(root, home), name),
{
    lemma_last_sep(name);
}

/// A file name with directory separators resolves to the sub-directory
/// its non-final components imply, and its full path is that directory
/// joined with its base name.
pub proof fn lemma_resolve_nested(root: Seq<char>, home: Seq<char>, name: Seq<char>)
    requires
        spec_has_sep(name),
    ensures
        spec_resolve_project_dir(root, home, name) == spec_join(
            spec_expand_home(root, home),
            spec_dir_part(name),
        ),
        spec_resolve_full_path(root, home, name) == spec_join(
            spec_resolve_project_dir(root, home, name),
            spec_base_name(name),
        ),
{
}

} // verus!
