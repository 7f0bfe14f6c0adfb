//! Output-path synthesis: deterministic naming of the file each operation
//! writes, derived from the input path's components.  Paths are plain
//! character strings with `'/'` as the separator.

use vstd::prelude::*;
use vstd::string::StrSliceExecFns;
use vstd::string::StringExecFns;

verus! {

/// Index of the last occurrence of `c` in `s`, or `-1` if there is none.
pub open spec fn spec_find_last(s: Seq<char>, c: char) -> int
    decreases s.len(),
{
    if s.len() == 0 {
        -1
    } else if s.last() == c {
        s.len() - 1
    } else {
        spec_find_last(s.drop_last(), c)
    }
}

pub proof fn lemma_find_last_range(s: Seq<char>, c: char)
    ensures
        -1 <= spec_find_last(s, c) < s.len(),
    decreases s.len(),
{
    if s.len() == 0 {
    } else if s.last() == c {
    } else {
        lemma_find_last_range(s.drop_last(), c);
    }
}

/// The component after the last separator; the whole path if it has none.
pub open spec fn spec_file_name(p: Seq<char>) -> Seq<char> {
    p.subrange(spec_find_last(p, '/') + 1, p.len() as int)
}

/// Everything before the last separator; `/` when that separator leads the
/// path, and empty when there is no separator at all.
pub open spec fn spec_parent(p: Seq<char>) -> Seq<char> {
    let i = spec_find_last(p, '/');
    if i < 0 {
        Seq::empty()
    } else if i == 0 {
        seq!['/']
    } else {
        p.subrange(0, i)
    }
}

/// The file name without its extension: everything before the last dot,
/// unless that dot leads the name.
pub open spec fn spec_file_stem(name: Seq<char>) -> Seq<char> {
    let i = spec_find_last(name, '.');
    if i <= 0 {
        name
    } else {
        name.subrange(0, i)
    }
}

/// The extension after the last dot of the name, if the dot neither leads
/// the name nor is absent.
pub open spec fn spec_extension(name: Seq<char>) -> Option<Seq<char>> {
    let i = spec_find_last(name, '.');
    if i <= 0 {
        None
    } else {
        Some(name.subrange(i + 1, name.len() as int))
    }
}

/// `dir` and `name` joined with a single separator; `name` alone when the
/// directory is empty, and no duplicate separator when `dir` ends in one.
pub open spec fn spec_join(dir: Seq<char>, name: Seq<char>) -> Seq<char> {
    if dir.len() == 0 {
        name
    } else if dir.last() == '/' {
        dir + name
    } else {
        dir + seq!['/'] + name
    }
}

/// Index of the last `c` in `s`; see [`spec_find_last`].
pub fn find_last_char(s: &str, c: char) -> (r: Option<usize>)
    ensures
        r is None <==> spec_find_last(s@, c) == -1,
        r matches Some(i) ==> i == spec_find_last(s@, c),
    decreases s@.len(),
{
    let n = s.unicode_len();
    if n == 0 {
        None
    } else if s.get_char(n - 1) == c {
        Some(n - 1)
    } else {
        let prefix = s.substring_char(0, n - 1);
        proof {
            assert(prefix@ =~= s@.drop_last());
            lemma_find_last_range(prefix@, c);
        }
        find_last_char(prefix, c)
    }
}

/// The file-name component of `p`; see [`spec_file_name`].
pub fn file_name_of<'a>(p: &'a str) -> (r: &'a str)
    ensures
        r@ == spec_file_name(p@),
{
    let n = p.unicode_len();
    match find_last_char(p, '/') {
        None => {
            proof {
                assert(p@.subrange(0, n as int) =~= p@);
            }
            p.substring_char(0, n)
        },
        Some(i) => {
            proof {
                lemma_find_last_range(p@, '/');
            }
            p.substring_char(i + 1, n)
        },
    }
}

/// The parent component of `p`; see [`spec_parent`].
pub fn parent_of<'a>(p: &'a str) -> (r: &'a str)
    ensures
        r@ == spec_parent(p@),
{
    match find_last_char(p, '/') {
        None => {
            let r = "";
            proof {
                reveal_strlit("");
                assert(r@ =~= spec_parent(p@));
            }
            r
        },
        Some(i) => {
            if i == 0 {
                let r = "/";
                proof {
                    reveal_strlit("/");
                    assert(r@ =~= spec_parent(p@));
                }
                r
            } else {
                proof {
                    lemma_find_last_range(p@, '/');
                }
                p.substring_char(0, i)
            }
        },
    }
}

/// The stem of `p`'s file name; see [`spec_file_stem`].
pub fn stem_of_path<'a>(p: &'a str) -> (r: &'a str)
    ensures
        r@ == spec_file_stem(spec_file_name(p@)),
{
    let name = file_name_of(p);
    let n = name.unicode_len();
    match find_last_char(name, '.') {
        None => {
            proof {
                assert(name@.subrange(0, n as int) =~= name@);
            }
            name.substring_char(0, n)
        },
        Some(i) => {
            if i == 0 {
                proof {
                    assert(name@.subrange(0, n as int) =~= name@);
                }
                name.substring_char(0, n)
            } else {
                proof {
                    lemma_find_last_range(name@, '.');
                }
                name.substring_char(0, i)
            }
        },
    }
}

/// The extension of `p`'s file name; see [`spec_extension`].
pub fn extension_of_path<'a>(p: &'a str) -> (r: Option<&'a str>)
    ensures
        r is None <==> spec_extension(spec_file_name(p@)) is None,
        r matches Some(e) ==> Some(e@) == spec_extension(spec_file_name(p@)),
{
    let name = file_name_of(p);
    let n = name.unicode_len();
    match find_last_char(name, '.') {
        None => None,
        Some(i) => {
            if i == 0 {
                None
            } else {
                proof {
                    lemma_find_last_range(name@, '.');
                }
                Some(name.substring_char(i + 1, n))
            }
        },
    }
}

/// Joins a directory and a file name; see [`spec_join`].
pub fn join_path(dir: &str, name: &str) -> (r: String)
    ensures
        r@ == spec_join(dir@, name@),
{
    let n = dir.unicode_len();
    if n == 0 {
        let r = name.to_owned();
        r
    } else if dir.get_char(n - 1) == '/' {
        let mut r = dir.to_owned();
        r.append(name);
        r
    } else {
        let mut r = dir.to_owned();
        r.append("/");
        r.append(name);
        proof {
            reveal_strlit("/");
            assert(r@ =~= spec_join(dir@, name@));
        }
        r
    }
}

} // verus!
