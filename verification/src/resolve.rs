//! The executable resolver: decides whether a command name is a builtin and,
//! if not, which directory of the search path supplies it.
//!
//! The resolver itself is pure: the caller splits the search-path variable
//! with [`split_search_path`] and probes the file system once per candidate
//! directory, handing the probe results in as a vector of booleans.  The
//! earliest directory whose probe succeeded wins, which
//! [`lemma_earlier_directory_wins`] states in full.

use vstd::prelude::*;

use crate::builtins::spec_is_builtin_name;
use crate::builtins::is_builtin_name;
use crate::text::push_char;

verus! {

/// Splitting a character sequence on `:`, with the split-so-far as
/// accumulator.  An empty input still yields one (empty) field, as
/// splitting a string on a separator does.
pub open spec fn split_colon_from(
    done: Seq<Seq<char>>,
    cur: Seq<char>,
    s: Seq<char>,
) -> Seq<Seq<char>>
    decreases s.len(),
{
    if s.len() == 0 {
        done.push(cur)
    } else if s.first() == ':' {
        split_colon_from(done.push(cur), Seq::empty(), s.drop_first())
    } else {
        split_colon_from(done, cur.push(s.first()), s.drop_first())
    }
}

/// The colon-separated fields of a search-path variable.
pub open spec fn spec_split_colon(s: Seq<char>) -> Seq<Seq<char>> {
    split_colon_from(Seq::empty(), Seq::empty(), s)
}

/// Splits a search-path variable into its directories, in listed order.
pub fn split_search_path(path: &str) -> (dirs: Vec<String>)
    ensures
        dirs.deep_view() == spec_split_colon(path@),
{
    let n = path.unicode_len();
    let mut dirs: Vec<String> = Vec::new();
    let mut cur = String::new();
    let mut i: usize = 0;
    proof {
        assert(path@.skip(0) =~= path@);
        assert(dirs.deep_view() =~= Seq::<Seq<char>>::empty());
    }
    while i < n
        invariant
            i <= n,
            n == path@.len(),
            spec_split_colon(path@) == split_colon_from(dirs.deep_view(), cur@, path@.skip(i as int)),
        decreases n - i,
    {
        proof {
            assert(path@.skip(i as int).first() == path@[i as int]);
            assert(path@.skip(i as int).drop_first() =~= path@.skip(i + 1));
        }
        let c = path.get_char(i);
        if c == ':' {
            let ghost olddirs = dirs.deep_view();
            let ghost oldcur = cur@;
            let field = cur;
            cur = String::new();
            dirs.push(field);
            proof {
                assert(dirs.deep_view() =~= olddirs.push(oldcur));
            }
        } else {
            push_char(&mut cur, c);
        }
        i = i + 1;
    }
    let ghost olddirs = dirs.deep_view();
    let ghost lastcur = cur@;
    dirs.push(cur);
    proof {
        assert(path@.skip(n as int) =~= Seq::<char>::empty());
        assert(dirs.deep_view() =~= olddirs.push(lastcur));
    }
    dirs
}

/// The candidate path `dir/name`.
pub open spec fn spec_candidate(dir: Seq<char>, name: Seq<char>) -> Seq<char> {
    dir + seq!['/'] + name
}

/// Builds the candidate path `dir/name`.
pub fn candidate_path(dir: &String, name: &String) -> (r: String)
    ensures
        r@ == spec_candidate(dir@, name@),
{
    let mut r = dir.clone();
    push_char(&mut r, '/');
    r.append(name.as_str());
    proof {
        assert(r@ =~= spec_candidate(dir@, name@));
    }
    r
}

/// A permission mode grants execution when any of the owner, group or other
/// execute bits is set.
pub open spec fn spec_is_executable_mode(mode: u32) -> bool {
    mode & 0o100 != 0 || mode & 0o010 != 0 || mode & 0o001 != 0
}

/// Decides whether a file permission mode grants execution to owner, group
/// or other.
pub fn is_executable_mode(mode: u32) -> (r: bool)
    ensures
        r == spec_is_executable_mode(mode),
{
    mode & 0o100 != 0 || mode & 0o010 != 0 || mode & 0o001 != 0
}

/// The resolved path: the candidate from the first directory whose probe
/// succeeded, or nothing when every probe failed.
pub open spec fn spec_resolve(name: Seq<char>, dirs: Seq<Seq<char>>, oks: Seq<bool>) -> Option<
    Seq<char>,
>
    decreases dirs.len(),
{
    if dirs.len() == 0 {
        None
    } else if oks.first() {
        Some(spec_candidate(dirs.first(), name))
    } else {
        spec_resolve(name, dirs.drop_first(), oks.drop_first())
    }
}

/// Scans the search-path directories in listed order for an executable
/// `name`.  `exec_ok[i]` reports the file-system probe of `dirs[i]/name`:
/// present, a regular file, and executable.  The first hit wins.
pub fn find_excutable(name: &String, dirs: &Vec<String>, exec_ok: &Vec<bool>) -> (r: Option<
    String,
>)
    requires
        dirs@.len() == exec_ok@.len(),
    ensures
        match r {
            Some(p) => spec_resolve(name@, dirs.deep_view(), exec_ok@) == Some(p@),
            None => spec_resolve(name@, dirs.deep_view(), exec_ok@) is None,
        },
{
    let mut i: usize = 0;
    proof {
        assert(dirs.deep_view().skip(0) =~= dirs.deep_view());
        assert(exec_ok@.skip(0) =~= exec_ok@);
    }
    while i < dirs.len()
        invariant
            i <= dirs.len(),
            dirs@.len() == exec_ok@.len(),
            spec_resolve(name@, dirs.deep_view(), exec_ok@) == spec_resolve(
                name@,
                dirs.deep_view().skip(i as int),
                exec_ok@.skip(i as int),
            ),
        decreases dirs.len() - i,
    {
        proof {
            assert(dirs.deep_view().skip(i as int).first() == dirs.deep_view()[i as int]);
            assert(dirs.deep_view().skip(i as int).drop_first() =~= dirs.deep_view().skip(i + 1));
            assert(exec_ok@.skip(i as int).first() == exec_ok@[i as int]);
            assert(exec_ok@.skip(i as int).drop_first() =~= exec_ok@.skip(i + 1));
        }
        if exec_ok[i] {
            return Some(candidate_path(&dirs[i], name));
        }
        i = i + 1;
    }
    proof {
        assert(dirs.deep_view().skip(dirs@.len() as int) =~= Seq::<Seq<char>>::empty());
    }
    None
}

/// Resolution returns the candidate of the first directory whose probe
/// succeeded.
pub proof fn lemma_resolve_first_hit(
    name: Seq<char>,
    dirs: Seq<Seq<char>>,
    oks: Seq<bool>,
    i: int,
)
    requires
        dirs.len() == oks.len(),
        0 <= i < oks.len(),
        oks[i],
        forall|m: int| 0 <= m < i ==> !oks[m],
    ensures
        spec_resolve(name, dirs, oks) == Some(spec_candidate(dirs[i], name)),
    decreases i,
{
    if i == 0 {
    } else {
        assert(forall|m: int|
            0 <= m < i - 1 ==> oks.drop_first()[m] == oks[m + 1] && !oks[m + 1]);
        lemma_resolve_first_hit(name, dirs.drop_first(), oks.drop_first(), i - 1);
    }
}

/// The law of path order: when a command is present (executable) in two
/// search-path directories, resolution returns the candidate from the
/// earlier-listed one — more precisely, from the first directory with a hit,
/// which is no later than either of them.
pub proof fn lemma_earlier_directory_wins(
    name: Seq<char>,
    dirs: Seq<Seq<char>>,
    oks: Seq<bool>,
    i: int,
    j: int,
)
    requires
        dirs.len() == oks.len(),
        0 <= i < j < oks.len(),
        oks[i],
        oks[j],
    ensures
        exists|k: int|
            {
                &&& 0 <= k <= i
                &&& #[trigger] oks[k]
                &&& spec_resolve(name, dirs, oks) == Some(spec_candidate(dirs[k], name))
            },
    decreases i,
{
    if forall|m: int| 0 <= m < i ==> !oks[m] {
        lemma_resolve_first_hit(name, dirs, oks, i);
        assert(oks[i] && spec_resolve(name, dirs, oks) == Some(spec_candidate(dirs[i], name)));
    } else {
        let m = choose|m: int| 0 <= m < i && oks[m];
        lemma_earlier_directory_wins(name, dirs, oks, m, j);
        let k = choose|k: int|
            {
                &&& 0 <= k <= m
                &&& #[trigger] oks[k]
                &&& spec_resolve(name, dirs, oks) == Some(spec_candidate(dirs[k], name))
            };
        assert(0 <= k <= i && oks[k] && spec_resolve(name, dirs, oks) == Some(
            spec_candidate(dirs[k], name),
        ));
    }
}

/// How a command name resolves: an exact builtin name, an executable found
/// on the search path, or nothing.
#[derive(Debug)]
pub enum Resolution {
    Builtin,
    External(String),
    NotFound,
}

/// Resolves a command name: builtin names win outright; otherwise the search
/// path is scanned in listed order, `exec_ok` reporting the per-directory
/// probe for `name` as in [`find_excutable`].
pub fn resolve(name: &String, dirs: &Vec<String>, exec_ok: &Vec<bool>) -> (r: Resolution)
    requires
        dirs@.len() == exec_ok@.len(),
    ensures
        spec_is_builtin_name(name@) ==> r is Builtin,
        !spec_is_builtin_name(name@) ==> match r {
            Resolution::Builtin => false,
            Resolution::External(p) => spec_resolve(name@, dirs.deep_view(), exec_ok@) == Some(
                p@,
            ),
            Resolution::NotFound => spec_resolve(name@, dirs.deep_view(), exec_ok@) is None,
        },
{
    if is_builtin_name(name) {
        Resolution::Builtin
    } else {
        match find_excutable(name, dirs, exec_ok) {
            Some(p) => Resolution::External(p),
            None => Resolution::NotFound,
        }
    }
}

} // verus!
