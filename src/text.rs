//! Character-level helpers for `/`-separated paths held as strings.
use vstd::prelude::*;
use vstd::string::*;

verus! {

/// The path separator.
pub open spec fn sep() -> char {
    '/'
}

/// `p` without its leading separators.
pub open spec fn trim_seps(p: Seq<char>) -> Seq<char>
    decreases p.len(),
{
    if p.len() > 0 && p[0] == sep() {
        trim_seps(p.drop_first())
    } else {
        p
    }
}

/// `p` begins with the whole segment `m`: either `p == m` or `p` is `m` followed by a separator.
pub open spec fn has_segment_prefix(p: Seq<char>, m: Seq<char>) -> bool {
    &&& p.len() >= m.len()
    &&& p.subrange(0, m.len() as int) == m
    &&& (p.len() == m.len() || p[m.len() as int] == sep())
}

/// What follows the leading segment `m` of `p`, without the separators in between.
pub open spec fn strip_segment(p: Seq<char>, m: Seq<char>) -> Seq<char> {
    trim_seps(p.subrange(m.len() as int, p.len() as int))
}

/// `rel` placed under the directory `root`.
pub open spec fn join(root: Seq<char>, rel: Seq<char>) -> Seq<char> {
    if root.len() > 0 && root.last() == sep() {
        root + trim_seps(rel)
    } else {
        root + seq![sep()] + trim_seps(rel)
    }
}

/// Where the first `i` characters of `p` are separators and the next one (if any) is not,
/// trimming the separators leaves what starts at `i`.
pub proof fn lemma_trim_seps_at(p: Seq<char>, i: int)
    requires
        0 <= i <= p.len(),
        forall|j: int| 0 <= j < i ==> p[j] == sep(),
        i == p.len() || p[i] != sep(),
    ensures
        trim_seps(p) == p.subrange(i, p.len() as int),
    decreases i,
{
    if i == 0 {
        assert(p.subrange(0, p.len() as int) =~= p);
    } else {
        let q = p.drop_first();
        assert forall|j: int| 0 <= j < i - 1 implies q[j] == sep() by {
            assert(q[j] == p[j + 1]);
        }
        lemma_trim_seps_at(q, i - 1);
        assert(q.subrange(i - 1, q.len() as int) =~= p.subrange(i, p.len() as int));
    }
}

/// A sequence that does not start with a separator is left as it is.
pub proof fn lemma_trim_seps_none(p: Seq<char>)
    requires
        p.len() == 0 || p[0] != sep(),
    ensures
        trim_seps(p) == p,
{
}

/// Index of the first character at or after `from` that is not a separator.
fn skip_seps(s: &str, from: usize) -> (i: usize)
    requires
        from <= s@.len(),
    ensures
        from <= i <= s@.len(),
        forall|j: int| from <= j < i ==> s@[j] == sep(),
        i == s@.len() || s@[i as int] != sep(),
{
    let n = s.unicode_len();
    let mut i = from;
    while i < n && s.get_char(i) == '/'
        invariant
            n == s@.len(),
            from <= i <= n,
            forall|j: int| from <= j < i ==> s@[j] == sep(),
        decreases n - i,
    {
        i = i + 1;
    }
    i
}

/// The characters of `s` from `from` on, without the separators that open them.
pub(crate) fn trimmed_from(s: &str, from: usize) -> (r: String)
    requires
        from <= s@.len(),
    ensures
        r@ == trim_seps(s@.subrange(from as int, s@.len() as int)),
{
    let i = skip_seps(s, from);
    let n = s.unicode_len();
    proof {
        let t = s@.subrange(from as int, s@.len() as int);
        assert forall|j: int| 0 <= j < i - from implies t[j] == sep() by {
            assert(t[j] == s@[j + from]);
        }
        lemma_trim_seps_at(t, i - from);
        assert(t.subrange(i - from, t.len() as int) =~= s@.subrange(i as int, s@.len() as int));
    }
    s.substring_char(i, n).to_owned()
}

/// Whether the first segment of `p` is `m`.
pub(crate) fn starts_with_segment(p: &str, m: &str) -> (r: bool)
    ensures
        r == has_segment_prefix(p@, m@),
{
    let pn = p.unicode_len();
    let mn = m.unicode_len();
    if pn < mn {
        return false;
    }
    let mut i: usize = 0;
    while i < mn
        invariant
            pn == p@.len(),
            mn == m@.len(),
            mn <= pn,
            i <= mn,
            forall|j: int| 0 <= j < i ==> p@[j] == m@[j],
        decreases mn - i,
    {
        if p.get_char(i) != m.get_char(i) {
            assert(p@.subrange(0, mn as int)[i as int] != m@[i as int]);
            return false;
        }
        i = i + 1;
    }
    assert(p@.subrange(0, mn as int) =~= m@);
    pn == mn || p.get_char(mn) == '/'
}

/// Whether `s` and `t` hold the same characters.
pub(crate) fn same_text(s: &str, t: &str) -> (r: bool)
    ensures
        r == (s@ == t@),
{
    let n = s.unicode_len();
    if n != t.unicode_len() {
        return false;
    }
    let mut i: usize = 0;
    while i < n
        invariant
            n == s@.len(),
            n == t@.len(),
            i <= n,
            forall|j: int| 0 <= j < i ==> s@[j] == t@[j],
        decreases n - i,
    {
        if s.get_char(i) != t.get_char(i) {
            return false;
        }
        i = i + 1;
    }
    assert(s@ =~= t@);
    true
}

/// Whether `s` ends with `t`.
pub(crate) fn ends_with_text(s: &str, t: &str) -> (r: bool)
    ensures
        r == (s@.len() >= t@.len() && s@.subrange(s@.len() - t@.len(), s@.len() as int) == t@),
{
    let n = s.unicode_len();
    let m = t.unicode_len();
    if n < m {
        return false;
    }
    let tail = s.substring_char(n - m, n);
    same_text(tail, t)
}

/// `rel` placed under the directory `root`.
pub(crate) fn join_path(root: &str, rel: &str) -> (r: String)
    ensures
        r@ == join(root@, rel@),
{
    let n = root.unicode_len();
    let rest = trimmed_from(rel, 0);
    assert(rel@.subrange(0, rel@.len() as int) =~= rel@);
    if n > 0 && root.get_char(n - 1) == '/' {
        String::from_str(root).concat(rest.as_str())
    } else {
        let r = String::from_str(root).concat("/").concat(rest.as_str());
        proof {
            reveal_strlit("/");
            assert(r@ =~= root@ + seq![sep()] + trim_seps(rel@));
        }
        r
    }
}

/// A `..` segment of `p` starts at `i`.
pub open spec fn parent_segment_at(p: Seq<char>, i: int) -> bool {
    &&& 0 <= i
    &&& i + 2 <= p.len()
    &&& p[i] == '.'
    &&& p[i + 1] == '.'
    &&& (i == 0 || p[i - 1] == sep())
    &&& (i + 2 == p.len() || p[i + 2] == sep())
}

/// `p` has a `..` segment, which steps up to the parent directory.
pub open spec fn has_parent_segment(p: Seq<char>) -> bool {
    exists|i: int| parent_segment_at(p, i)
}

/// Whether `p` has a `..` segment.
pub(crate) fn mentions_parent(p: &str) -> (r: bool)
    ensures
        r == has_parent_segment(p@),
{
    let n = p.unicode_len();
    let mut i: usize = 0;
    while n - i >= 2
        invariant
            n == p@.len(),
            i <= n,
            forall|j: int| 0 <= j < i ==> !parent_segment_at(p@, j),
        decreases n - i,
    {
        if p.get_char(i) == '.' && p.get_char(i + 1) == '.' && (i == 0 || p.get_char(i - 1)
            == '/') && (i + 2 == n || p.get_char(i + 2) == '/') {
            assert(parent_segment_at(p@, i as int));
            return true;
        }
        i = i + 1;
    }
    assert forall|j: int| !parent_segment_at(p@, j) by {
        if 0 <= j < i {
        }
    }
    false
}

/// The words of `ws` with `sp` between each two neighbours.
pub open spec fn join_words(ws: Seq<Seq<char>>, sp: Seq<char>) -> Seq<char>
    decreases ws.len(),
{
    if ws.len() == 0 {
        Seq::empty()
    } else if ws.len() == 1 {
        ws[0]
    } else {
        join_words(ws.drop_last(), sp) + sp + ws.last()
    }
}

/// The characters of each string in `v`.
pub open spec fn texts(v: Seq<String>) -> Seq<Seq<char>> {
    v.map_values(|s: String| s@)
}

/// The words of `v` with `sp` between each two neighbours.
pub(crate) fn join_strings(v: &Vec<String>, sp: &str) -> (r: String)
    ensures
        r@ == join_words(texts(v@), sp@),
{
    let mut r = String::new();
    let mut i: usize = 0;
    while i < v.len()
        invariant
            i <= v@.len(),
            r@ == join_words(texts(v@.subrange(0, i as int)), sp@),
        decreases v@.len() - i,
    {
        let ghost before = texts(v@.subrange(0, i as int));
        let ghost after = texts(v@.subrange(0, i + 1));
        assert(after.drop_last() =~= before);
        if i == 0 {
            r = String::from_str(v[i].as_str());
        } else {
            r = r.concat(sp).concat(v[i].as_str());
        }
        i = i + 1;
    }
    assert(v@.subrange(0, v@.len() as int) =~= v@);
    r
}

/// A copy of each string in `v`.
pub(crate) fn copy_strings(v: &Vec<String>) -> (r: Vec<String>)
    ensures
        r@ == v@,
{
    let mut r: Vec<String> = Vec::new();
    let mut i: usize = 0;
    while i < v.len()
        invariant
            i <= v@.len(),
            r@ == v@.subrange(0, i as int),
        decreases v@.len() - i,
    {
        r.push(v[i].clone());
        i = i + 1;
        assert(r@ =~= v@.subrange(0, i as int));
    }
    assert(v@.subrange(0, v@.len() as int) =~= v@);
    r
}

} // verus!
