//! Pure path-string arithmetic: the output-path resolution policy.
//!
//! Paths are modelled as plain strings. A path is split at its last `/` into a
//! directory prefix and a file name; the file name is split at its last `.`
//! (when that dot is not the first character) into a stem and an extension.
//! `get_ufo_outpath` rebuilds the output path from those parts and the
//! optional name-suffix and extension overrides. No I/O happens here.

use vstd::prelude::*;
use vstd::string::*;

verus! {

/// Index of the last occurrence of `c` in `s`, or `-1` when `s` has none.
pub open spec fn last_index_of(s: Seq<char>, c: char) -> int
    decreases s.len(),
{
    if s.len() == 0 {
        -1
    } else if s[s.len() - 1] == c {
        s.len() - 1
    } else {
        last_index_of(s.drop_last(), c)
    }
}

pub proof fn lemma_last_index_of(s: Seq<char>, c: char)
    ensures
        -1 <= last_index_of(s, c) < s.len(),
        last_index_of(s, c) >= 0 ==> s[last_index_of(s, c)] == c,
        forall|j: int| last_index_of(s, c) < j < s.len() ==> s[j] != c,
    decreases s.len(),
{
    if s.len() > 0 && s[s.len() - 1] != c {
        lemma_last_index_of(s.drop_last(), c);
        assert forall|j: int| last_index_of(s, c) < j < s.len() implies s[j] != c by {
            if j < s.len() - 1 {
                assert(s.drop_last()[j] == s[j]);
            }
        }
    }
}

/// The path without its trailing separators and `.` components: resolution
/// reads the last real component, as the standard path type does, so
/// `one/two/` and `one/two/.` both name `two`.
pub open spec fn trim_trailing(p: Seq<char>) -> Seq<char>
    decreases p.len(),
{
    if p.len() == 0 {
        p
    } else if p[p.len() - 1] == '/' {
        trim_trailing(p.drop_last())
    } else if p[p.len() - 1] == '.' && (p.len() == 1 || p[p.len() - 2] == '/') {
        trim_trailing(p.drop_last())
    } else {
        p
    }
}

/// The prefix of `p` up to and including its last `/`; empty when `p` has none.
pub open spec fn dir_prefix(p: Seq<char>) -> Seq<char> {
    p.subrange(0, last_index_of(p, '/') + 1)
}

/// What follows the last `/` of `p`: the file name component.
pub open spec fn file_name_part(p: Seq<char>) -> Seq<char> {
    p.subrange(last_index_of(p, '/') + 1, p.len() as int)
}

/// A path has a file stem when its last real component is not empty, `.` or
/// `..`.
pub open spec fn has_file_stem(p: Seq<char>) -> bool {
    let f = file_name_part(trim_trailing(p));
    f.len() != 0 && f != seq!['.'] && f != seq!['.', '.']
}

/// The file name `f` without its extension. The split is at the last `.` of
/// `f` when that dot is not the first character; a name such as `.hidden`
/// has no extension and is its own stem.
pub open spec fn stem_of(f: Seq<char>) -> Seq<char> {
    if last_index_of(f, '.') > 0 {
        f.subrange(0, last_index_of(f, '.'))
    } else {
        f
    }
}

/// The extension of the file name `f`, empty when `f` has none.
pub open spec fn extension_of(f: Seq<char>) -> Seq<char> {
    if last_index_of(f, '.') > 0 {
        f.subrange(last_index_of(f, '.') + 1, f.len() as int)
    } else {
        Seq::empty()
    }
}

/// An extension override may be given with or without its leading dot.
pub open spec fn strip_leading_dot(e: Seq<char>) -> Seq<char> {
    if e.len() > 0 && e[0] == '.' {
        e.subrange(1, e.len() as int)
    } else {
        e
    }
}

/// The file name `name` with its extension replaced by `ext`: the current
/// extension is dropped, and `.ext` is appended when `ext` is not empty.
pub open spec fn with_file_extension(name: Seq<char>, ext: Seq<char>) -> Seq<char> {
    if ext.len() == 0 {
        stem_of(name)
    } else {
        stem_of(name) + seq!['.'] + ext
    }
}

/// The resolved output path, built on the path without its trailing
/// separators: directory prefix, then the stem with the optional suffix
/// appended, then the overriding or original extension.
pub open spec fn resolved_outpath(
    p: Seq<char>,
    uname: Option<Seq<char>>,
    uext: Option<Seq<char>>,
) -> Seq<char> {
    let q = trim_trailing(p);
    let base = match uname {
        Some(n) => stem_of(file_name_part(q)) + n,
        None => stem_of(file_name_part(q)),
    };
    let ext = match uext {
        Some(e) => strip_leading_dot(e),
        None => extension_of(file_name_part(q)),
    };
    dir_prefix(q) + with_file_extension(base, ext)
}

/// The view of an optional string.
pub open spec fn opt_view(o: Option<String>) -> Option<Seq<char>> {
    match o {
        Some(s) => Some(s@),
        None => None,
    }
}

/// Index of the last occurrence of `c` in `s`, scanning from the end.
pub fn rfind_char(s: &str, c: char) -> (r: Option<usize>)
    ensures
        match r {
            Some(i) => i < s@.len() && last_index_of(s@, c) == i as int,
            None => last_index_of(s@, c) == -1,
        },
{
    proof {
        lemma_last_index_of(s@, c);
    }
    let n: usize = s.unicode_len();
    let mut i: usize = n;
    while i > 0
        invariant
            i <= n,
            n == s@.len(),
            forall|j: int| i <= j < s@.len() ==> s@[j] != c,
        decreases i,
    {
        i = i - 1;
        if s.get_char(i) == c {
            proof {
                lemma_last_index_of(s@, c);
                let l = last_index_of(s@, c);
                if l < i as int {
                    assert(s@[i as int] != c);
                } else if l > i as int {
                    assert(s@[l] != c);
                }
            }
            return Some(i);
        }
    }
    None
}

/// Whether the character sequences of `a` and `b` are equal.
pub fn str_eq(a: &str, b: &str) -> (r: bool)
    ensures
        r == (a@ == b@),
{
    let na: usize = a.unicode_len();
    let nb: usize = b.unicode_len();
    if na != nb {
        return false;
    }
    let mut i: usize = 0;
    while i < na
        invariant
            i <= na,
            na == a@.len(),
            na == b@.len(),
            forall|j: int| 0 <= j < i ==> a@[j] == b@[j],
        decreases na - i,
    {
        if a.get_char(i) != b.get_char(i) {
            return false;
        }
        i = i + 1;
    }
    proof {
        assert(a@ =~= b@);
    }
    true
}

/// Length of `s` without its trailing separators and `.` components, as
/// `trim_trailing` describes.
#[verifier::loop_isolation(false)]
fn trimmed_len(s: &str) -> (r: usize)
    ensures
        r <= s@.len(),
        trim_trailing(s@) == s@.subrange(0, r as int),
{
    let n: usize = s.unicode_len();
    let mut m: usize = n;
    proof {
        assert(s@.subrange(0, n as int) =~= s@);
    }
    while m > 0
        invariant
            m <= n,
            trim_trailing(s@) == trim_trailing(s@.subrange(0, m as int)),
        decreases m,
    {
        let ghost cur = s@.subrange(0, m as int);
        let c = s.get_char(m - 1);
        let strip: bool = if c == '/' {
            true
        } else if c == '.' {
            m == 1 || s.get_char(m - 2) == '/'
        } else {
            false
        };
        if !strip {
            proof {
                assert(trim_trailing(cur) == cur);
            }
            return m;
        }
        proof {
            assert(cur.drop_last() =~= s@.subrange(0, m - 1));
            assert(trim_trailing(cur) == trim_trailing(cur.drop_last()));
        }
        m = m - 1;
    }
    proof {
        assert(s@.subrange(0, 0) =~= Seq::<char>::empty());
    }
    m
}

/// Replaces the extension of the file name `name` with `ext`, as
/// `with_file_extension` describes.
fn set_path_extension(name: &str, ext: &str) -> (r: String)
    ensures
        r@ == with_file_extension(name@, ext@),
{
    proof {
        lemma_last_index_of(name@, '.');
    }
    let dot = rfind_char(name, '.');
    let stem: &str = if let Some(i) = dot {
        if i > 0 {
            name.substring_char(0, i)
        } else {
            name
        }
    } else {
        name
    };
    let mut out = String::from_str(stem);
    if ext.unicode_len() > 0 {
        out.append(".");
        out.append(ext);
        proof {
            reveal_strlit(".");
            assert(out@ =~= stem_of(name@) + seq!['.'] + ext@);
        }
    }
    out
}

/// Computes the output directory path for a UFO source path from the optional
/// file-name-suffix and extension overrides. Returns `None` when the path has
/// no file stem to build on.
pub fn get_ufo_outpath(
    user_ufo_path: &str,
    user_unique_filename: &Option<String>,
    user_unique_extension: &Option<String>,
) -> (r: Option<String>)
    ensures
        match r {
            Some(out) => has_file_stem(user_ufo_path@) && out@ == resolved_outpath(
                user_ufo_path@,
                opt_view(*user_unique_filename),
                opt_view(*user_unique_extension),
            ),
            None => !has_file_stem(user_ufo_path@),
        },
{
    let tlen = trimmed_len(user_ufo_path);
    let trimmed = user_ufo_path.substring_char(0, tlen);
    proof {
        assert(trimmed@ == trim_trailing(user_ufo_path@));
    }
    let n: usize = tlen;
    let slash = rfind_char(trimmed, '/');
    let fstart: usize = match slash {
        Some(i) => i + 1,
        None => 0,
    };
    let fname = trimmed.substring_char(fstart, n);
    proof {
        assert(fname@ =~= file_name_part(trimmed@));
    }
    let flen: usize = fname.unicode_len();
    if flen == 0 {
        return None;
    }
    if flen == 1 && fname.get_char(0) == '.' {
        proof {
            assert(file_name_part(trimmed@) =~= seq!['.']);
        }
        return None;
    }
    if flen == 2 && fname.get_char(0) == '.' && fname.get_char(1) == '.' {
        proof {
            assert(file_name_part(trimmed@) =~= seq!['.', '.']);
        }
        return None;
    }
    proof {
        assert(file_name_part(trimmed@) != seq!['.'] && file_name_part(trimmed@)
            != seq!['.', '.']) by {
            if file_name_part(trimmed@) == seq!['.'] {
                assert(fname@[0] == '.');
            }
            if file_name_part(trimmed@) == seq!['.', '.'] {
                assert(fname@[0] == '.' && fname@[1] == '.');
            }
        }
    }

    proof {
        lemma_last_index_of(fname@, '.');
    }
    let dot = rfind_char(fname, '.');
    let stem: &str = if let Some(i) = dot {
        if i > 0 {
            fname.substring_char(0, i)
        } else {
            fname
        }
    } else {
        fname
    };
    proof {
        assert(stem@ == stem_of(fname@));
    }

    let mut base = String::from_str(stem);
    if let Some(unique_name) = user_unique_filename {
        base.append(unique_name.as_str());
    }

    let new_name: String = match user_unique_extension {
        Some(unique_ext) => {
            let elen: usize = unique_ext.as_str().unicode_len();
            if elen > 0 && unique_ext.as_str().get_char(0) == '.' {
                set_path_extension(base.as_str(), unique_ext.as_str().substring_char(1, elen))
            } else {
                set_path_extension(base.as_str(), unique_ext.as_str())
            }
        },
        None => {
            let fext: &str = if let Some(i) = dot {
                if i > 0 {
                    fname.substring_char(i + 1, flen)
                } else {
                    fname.substring_char(0, 0)
                }
            } else {
                fname.substring_char(0, 0)
            };
            proof {
                assert(fext@ =~= extension_of(fname@));
            }
            set_path_extension(base.as_str(), fext)
        },
    };

    let dir = trimmed.substring_char(0, fstart);
    proof {
        assert(dir@ =~= dir_prefix(trimmed@));
    }
    let out = String::from_str(dir).concat(new_name.as_str());
    proof {
        assert(out@ =~= resolved_outpath(
            user_ufo_path@,
            opt_view(*user_unique_filename),
            opt_view(*user_unique_extension),
        ));
    }
    Some(out)
}

} // verus!
