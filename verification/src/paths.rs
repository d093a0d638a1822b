//! Paths as `/`-separated absolute strings.
//!
//! The engine never touches the filesystem, so a path is just text: these
//! are the spec-level definitions of joining, trimming trailing slashes,
//! basename and dirname, together with verified executable counterparts.

use vstd::prelude::*;

verus! {

/// `dir/name`, without doubling the separator when `dir` already ends
/// in one.
pub open spec fn spec_join(dir: Seq<char>, name: Seq<char>) -> Seq<char> {
    if dir.len() > 0 && dir.last() == '/' {
        dir + name
    } else {
        dir + seq!['/'] + name
    }
}

/// The path with every trailing `/` removed.
pub open spec fn spec_trim_trailing_slashes(p: Seq<char>) -> Seq<char>
    decreases p.len(),
{
    if p.len() > 0 && p.last() == '/' {
        spec_trim_trailing_slashes(p.drop_last())
    } else {
        p
    }
}

/// The suffix after the last `/`, or the whole path if it has none.
pub open spec fn spec_basename(p: Seq<char>) -> Seq<char>
    decreases p.len(),
{
    if p.len() == 0 || p.last() == '/' {
        Seq::<char>::empty()
    } else {
        spec_basename(p.drop_last()).push(p.last())
    }
}

/// The index where the basename of `p` starts: `0` if `p` holds no `/`,
/// one past the last `/` otherwise.
pub open spec fn basename_start(p: Seq<char>) -> int {
    p.len() - spec_basename(p).len()
}

/// The final component of a path in the sense of the "go up" panel:
/// `None` for the root and for an empty path, the basename otherwise.
pub open spec fn spec_file_name(p: Seq<char>) -> Option<Seq<char>> {
    let t = spec_trim_trailing_slashes(p);
    if spec_basename(t).len() == 0 {
        None
    } else {
        Some(spec_basename(t))
    }
}

/// Everything before the basename: the enclosing directory, with `/` for
/// a path whose basename starts at or next to the beginning.
pub open spec fn spec_dirname(p: Seq<char>) -> Seq<char> {
    let t = spec_trim_trailing_slashes(p);
    if basename_start(t) <= 1 {
        seq!['/']
    } else {
        t.take(basename_start(t) - 1)
    }
}

/// A basename never holds a separator.
pub proof fn lemma_basename_no_slash(p: Seq<char>)
    ensures
        forall|j: int| 0 <= j < spec_basename(p).len() ==> spec_basename(p)[j] != '/',
        spec_basename(p).len() <= p.len(),
    decreases p.len(),
{
    if p.len() == 0 || p.last() == '/' {
    } else {
        lemma_basename_no_slash(p.drop_last());
    }
}

/// The basename is the suffix of `p` that starts right after its last
/// separator: knowing that `p[i..]` is slash-free and that `i` is `0` or
/// preceded by a `/` pins it down.
pub proof fn lemma_basename_is_suffix(p: Seq<char>, i: int)
    requires
        0 <= i <= p.len(),
        forall|j: int| i <= j < p.len() ==> p[j] != '/',
        i > 0 ==> p[i - 1] == '/',
    ensures
        spec_basename(p) =~= p.subrange(i, p.len() as int),
    decreases p.len(),
{
    if p.len() == i {
        if i > 0 {
            assert(p.last() == '/');
        }
    } else {
        assert(p[p.len() - 1] != '/');
        lemma_basename_is_suffix(p.drop_last(), i);
    }
}

/// Trimming removes exactly the trailing run of separators: knowing that
/// `p[k..]` is all `/` and that `k` is `0` or preceded by something else
/// pins the result down to `p[..k]`.
pub proof fn lemma_trim_is_prefix(p: Seq<char>, k: int)
    requires
        0 <= k <= p.len(),
        forall|j: int| k <= j < p.len() ==> p[j] == '/',
        k > 0 ==> p[k - 1] != '/',
    ensures
        spec_trim_trailing_slashes(p) =~= p.take(k),
    decreases p.len(),
{
    if p.len() == k {
    } else {
        assert(p.last() == '/');
        lemma_trim_is_prefix(p.drop_last(), k);
    }
}

/// True exactly when the path ends in a separator.
pub fn ends_with_slash(s: &str) -> (b: bool)
    ensures
        b == (s@.len() > 0 && s@.last() == '/'),
{
    let n = s.unicode_len();
    if n == 0 {
        false
    } else {
        s.get_char(n - 1) == '/'
    }
}

/// The path with every trailing `/` removed.
pub fn trim_trailing_slashes(s: &str) -> (r: String)
    ensures
        r@ == spec_trim_trailing_slashes(s@),
{
    let n = s.unicode_len();
    let mut k: usize = n;
    while k > 0 && s.get_char(k - 1) == '/'
        invariant
            k <= n,
            n == s@.len(),
            forall|j: int| k <= j < n ==> s@[j] == '/',
        decreases k,
    {
        k = k - 1;
    }
    proof {
        lemma_trim_is_prefix(s@, k as int);
    }
    let t = s.substring_char(0, k);
    t.to_owned()
}

/// The index where the basename of `s` starts.
pub fn basename_start_index(s: &str) -> (i: usize)
    ensures
        i as int == basename_start(s@),
        spec_basename(s@) =~= s@.subrange(i as int, s@.len() as int),
{
    let n = s.unicode_len();
    let mut i: usize = n;
    while i > 0 && s.get_char(i - 1) != '/'
        invariant
            i <= n,
            n == s@.len(),
            forall|j: int| i <= j < n ==> s@[j] != '/',
        decreases i,
    {
        i = i - 1;
    }
    proof {
        lemma_basename_is_suffix(s@, i as int);
    }
    i
}

/// The suffix after the last `/`, or the whole path if it has none.
pub fn basename(s: &str) -> (r: String)
    ensures
        r@ == spec_basename(s@),
{
    let n = s.unicode_len();
    let i = basename_start_index(s);
    let t = s.substring_char(i, n);
    t.to_owned()
}

/// `dir/name` as a fresh string.
pub fn join_path(dir: &str, name: &str) -> (r: String)
    ensures
        r@ == spec_join(dir@, name@),
{
    let mut r = dir.to_owned();
    if !ends_with_slash(dir) {
        proof {
            reveal_strlit("/");
        }
        r.append("/");
        proof {
            assert(r@ =~= dir@ + seq!['/']);
        }
    }
    r.append(name);
    proof {
        if dir@.len() > 0 && dir@.last() == '/' {
            assert(r@ =~= dir@ + name@);
        } else {
            assert(r@ =~= dir@ + seq!['/'] + name@);
        }
    }
    r
}

/// The final component for the "go up" panel, `None` at the root.
pub fn path_file_name(s: &str) -> (r: Option<String>)
    ensures
        match r {
            Some(name) => spec_file_name(s@) == Some(name@),
            None => spec_file_name(s@) is None,
        },
{
    let t = trim_trailing_slashes(s);
    let b = basename(t.as_str());
    if b.unicode_len() == 0 {
        None
    } else {
        Some(b)
    }
}

/// Everything before the basename: the enclosing directory.
pub fn dirname(s: &str) -> (r: String)
    ensures
        r@ == spec_dirname(s@),
{
    let t = trim_trailing_slashes(s);
    let i = basename_start_index(t.as_str());
    if i <= 1 {
        proof {
            reveal_strlit("/");
        }
        let r = String::from_str("/");
        proof {
            assert(r@ =~= seq!['/']);
        }
        r
    } else {
        let p = t.as_str().substring_char(0, i - 1);
        proof {
            assert(p@ =~= t@.take(i - 1));
        }
        p.to_owned()
    }
}

/// The parent directory of a path: `None` at the root (a path with no
/// final component), the enclosing directory otherwise.
pub fn parent_path_of(s: &str) -> (r: Option<String>)
    ensures
        match r {
            Some(p) => spec_file_name(s@) is Some && p@ == spec_dirname(s@),
            None => spec_file_name(s@) is None,
        },
{
    match path_file_name(s) {
        Some(_) => Some(dirname(s)),
        None => None,
    }
}

/// Character-wise string equality.
pub fn str_eq(a: &str, b: &str) -> (r: bool)
    ensures
        r == (a@ == b@),
{
    let n = a.unicode_len();
    if n != b.unicode_len() {
        return false;
    }
    for i in 0..n
        invariant
            n == a@.len(),
            n == b@.len(),
            forall|j: int| 0 <= j < i ==> a@[j] == b@[j],
    {
        if a.get_char(i) != b.get_char(i) {
            return false;
        }
    }
    proof {
        assert(a@ =~= b@);
    }
    true
}

} // verus!
