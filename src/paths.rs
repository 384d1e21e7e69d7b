//! Paths as `/`-separated character strings.
//!
//! Paths handed to these functions are taken in normal form: no empty,
//! `.` or `..` components and no trailing separator, as a canonicalised
//! path has.

use vstd::prelude::*;
use crate::text::{has_prefix, starts_with};

verus! {

/// `name` appended to `base`: an absolute `name` replaces `base`, and one
/// separator is put between the two unless `base` is empty or already ends
/// in one.
pub open spec fn join_spec(base: Seq<char>, name: Seq<char>) -> Seq<char> {
    if name.len() > 0 && name[0] == '/' {
        name
    } else if base.len() == 0 {
        name
    } else if base.last() == '/' {
        base + name
    } else {
        base + seq!['/'] + name
    }
}

pub open spec fn is_absolute_spec(p: Seq<char>) -> bool {
    p.len() > 0 && p[0] == '/'
}

/// What is left of `path` below the directory `base`, if `path` lies in it.
pub open spec fn strip_dir_spec(path: Seq<char>, base: Seq<char>) -> Option<Seq<char>> {
    if path == base {
        Some(Seq::empty())
    } else if base.len() > 0 && base.last() == '/' && has_prefix(path, base) {
        Some(path.skip(base.len() as int))
    } else if has_prefix(path, base.push('/')) {
        Some(path.skip(base.len() + 1int))
    } else {
        None
    }
}

/// Position where the component that ends at `j` starts.
pub open spec fn component_start(p: Seq<char>, j: int) -> int
    decreases j,
{
    if j <= 0 {
        0
    } else if p[j - 1] == '/' {
        j
    } else {
        component_start(p, j - 1)
    }
}

/// The last component of `p`, absent for the root, the empty path and `..`.
pub open spec fn file_name_spec(p: Seq<char>) -> Option<Seq<char>> {
    let last = p.subrange(component_start(p, p.len() as int), p.len() as int);
    if last.len() == 0 || last == seq!['.', '.'] {
        None
    } else {
        Some(last)
    }
}

/// Appending to an absolute path gives an absolute path.
pub proof fn lemma_join_keeps_absolute(base: Seq<char>, name: Seq<char>)
    requires
        is_absolute_spec(base),
    ensures
        is_absolute_spec(join_spec(base, name)),
        join_spec(base, name).len() > 0,
{
    if !(name.len() > 0 && name[0] == '/') {
        if base.last() == '/' {
            assert((base + name)[0] == base[0]);
        } else {
            assert((base + seq!['/'] + name)[0] == base[0]);
        }
    }
}

/// `name` appended to `base` as a path.
pub fn join(base: &str, name: &str) -> (r: String)
    ensures
        r@ == join_spec(base@, name@),
{
    let nb = base.unicode_len();
    let nn = name.unicode_len();
    if nn > 0 && name.get_char(0) == '/' {
        return String::from_str(name);
    }
    if nb == 0 {
        return String::from_str(name);
    }
    let mut out = String::from_str(base);
    if base.get_char(nb - 1) != '/' {
        crate::text::push_char(&mut out, '/');
    }
    out.append(name);
    out
}

/// Whether `p` is absolute.
pub fn is_absolute(p: &str) -> (r: bool)
    ensures
        r == is_absolute_spec(p@),
{
    p.unicode_len() > 0 && p.get_char(0) == '/'
}

/// What is left of `path` below the directory `base`.
pub fn strip_dir(path: &str, base: &str) -> (r: Option<String>)
    ensures
        r matches Some(x) ==> strip_dir_spec(path@, base@) == Some(x@),
        r is None ==> strip_dir_spec(path@, base@) is None,
{
    let np = path.unicode_len();
    let nb = base.unicode_len();
    if starts_with(path, base) {
        if np == nb {
            assert(path@ =~= base@);
            return Some(String::new());
        }
        if nb > 0 && base.get_char(nb - 1) == '/' {
            assert(path@ != base@);
            return Some(String::from_str(path.substring_char(nb, np)));
        }
        if path.get_char(nb) == '/' {
            assert(path@.subrange(0, nb + 1) =~= base@.push('/'));
            assert(path@ != base@);
            return Some(String::from_str(path.substring_char(nb + 1, np)));
        }
        proof {
            assert(path@.len() != base@.len());
            if has_prefix(path@, base@.push('/')) {
                assert(path@[nb as int] == path@.subrange(0, nb + 1)[nb as int]);
            }
        }
    } else {
        proof {
            if has_prefix(path@, base@.push('/')) {
                assert(path@.subrange(0, nb as int) =~= path@.subrange(0, nb + 1).subrange(0, nb as int));
                assert(base@.push('/').subrange(0, nb as int) =~= base@);
            }
            if path@ == base@ {
                assert(path@.subrange(0, nb as int) =~= base@);
            }
        }
    }
    None
}

/// The last component of `p`.
pub fn file_name(p: &str) -> (r: Option<String>)
    ensures
        r matches Some(x) ==> file_name_spec(p@) == Some(x@),
        r is None ==> file_name_spec(p@) is None,
{
    let n = p.unicode_len();
    let mut j: usize = n;
    while j > 0 && p.get_char(j - 1) != '/'
        invariant
            n == p@.len(),
            j <= n,
            component_start(p@, n as int) == component_start(p@, j as int),
        decreases j,
    {
        j = j - 1;
    }
    let last = p.substring_char(j, n);
    let nl = n - j;
    if nl == 0 || (nl == 2 && last.get_char(0) == '.' && last.get_char(1) == '.') {
        proof {
            if nl == 2 {
                assert(last@ =~= seq!['.', '.']);
            }
        }
        None
    } else {
        proof {
            if last@ == seq!['.', '.'] {
                assert(last@[0] == '.' && last@[1] == '.');
            }
        }
        Some(String::from_str(last))
    }
}

} // verus!
