//! Small verified string helpers over the character view of `str`.

use vstd::prelude::*;

verus! {

/// True when `p` occurs in `s` starting at character `start`.
pub open spec fn occurs_at(s: Seq<char>, start: int, p: Seq<char>) -> bool {
    0 <= start && start + p.len() <= s.len() && s.subrange(start, start + p.len()) == p
}

/// `s` with every leading copy of `p` removed (what `trim_start_matches` does
/// with a string pattern).
pub open spec fn strip_leading(s: Seq<char>, p: Seq<char>) -> Seq<char>
    decreases s.len(),
{
    if p.len() > 0 && occurs_at(s, 0, p) {
        strip_leading(s.subrange(p.len() as int, s.len() as int), p)
    } else {
        s
    }
}

/// True when `p` occurs somewhere in `s`.
pub open spec fn contains_seq(s: Seq<char>, p: Seq<char>) -> bool {
    exists|i: int| 0 <= i <= s.len() - p.len() && #[trigger] occurs_at(s, i, p)
}

/// Compares `p` with the characters of `s` from `start` on.
pub fn matches_at(s: &str, start: usize, p: &str) -> (r: bool)
    ensures
        r == occurs_at(s@, start as int, p@),
{
    let n = s.unicode_len();
    let m = p.unicode_len();
    if start > n || m > n - start {
        return false;
    }
    let mut k: usize = 0;
    while k < m
        invariant
            start + m <= n,
            n == s@.len(),
            m == p@.len(),
            k <= m,
            forall|j: int| 0 <= j < k ==> s@[start + j] == p@[j],
        decreases m - k,
    {
        if s.get_char(start + k) != p.get_char(k) {
            assert(s@.subrange(start as int, start + m)[k as int] != p@[k as int]);
            return false;
        }
        k = k + 1;
    }
    assert(s@.subrange(start as int, start + m) =~= p@);
    true
}

/// Character-wise equality of two strings.
pub fn same_text(a: &str, b: &str) -> (r: bool)
    ensures
        r == (a@ == b@),
{
    if a.unicode_len() != b.unicode_len() {
        return false;
    }
    let r = matches_at(a, 0, b);
    assert(a@ =~= a@.subrange(0, b@.len() as int));
    r
}

/// True when `p` occurs anywhere in `s`.
pub fn contains_text(s: &str, p: &str) -> (r: bool)
    ensures
        r == contains_seq(s@, p@),
{
    let n = s.unicode_len();
    let m = p.unicode_len();
    if m > n {
        return false;
    }
    if m == 0 {
        assert(s@.subrange(0, 0) =~= p@);
        assert(occurs_at(s@, 0, p@));
        return true;
    }
    let mut i: usize = 0;
    while i <= n - m
        invariant
            0 < m <= n,
            n == s@.len(),
            m == p@.len(),
            i <= n - m + 1,
            forall|j: int| 0 <= j < i ==> !occurs_at(s@, j, p@),
        decreases n - m + 1 - i,
    {
        if matches_at(s, i, p) {
            return true;
        }
        i = i + 1;
    }
    false
}

/// Removes every leading copy of `p` from `s`.
pub fn trim_leading<'a>(s: &'a str, p: &str) -> (r: &'a str)
    ensures
        r@ == strip_leading(s@, p@),
{
    let n = s.unicode_len();
    let m = p.unicode_len();
    if m == 0 {
        return s;
    }
    let mut i: usize = 0;
    assert(s@.subrange(0, n as int) =~= s@);
    while matches_at(s, i, p)
        invariant
            n == s@.len(),
            m == p@.len(),
            m > 0,
            i <= n,
            strip_leading(s@, p@) == strip_leading(s@.subrange(i as int, n as int), p@),
        decreases n - i,
    {
        let ghost rest = s@.subrange(i as int, n as int);
        proof {
            assert(rest.subrange(0, m as int) =~= s@.subrange(i as int, i + m));
            assert(rest.subrange(m as int, rest.len() as int) =~= s@.subrange(i + m, n as int));
        }
        i = i + m;
    }
    proof {
        let rest = s@.subrange(i as int, n as int);
        if occurs_at(rest, 0, p@) {
            assert(rest.subrange(0, m as int) =~= s@.subrange(i as int, i + m));
        }
    }
    s.substring_char(i, n)
}

/// Appends `src` to `dst`.
pub fn push_text(dst: &mut String, src: &str)
    ensures
        final(dst)@ == old(dst)@ + src@,
{
    dst.append(src);
}

/// `s` with every trailing copy of `p` removed (what `trim_end_matches`
/// does with a string pattern).
pub open spec fn strip_trailing(s: Seq<char>, p: Seq<char>) -> Seq<char>
    decreases s.len(),
{
    if p.len() > 0 && s.len() >= p.len() && occurs_at(s, s.len() - p.len(), p) {
        strip_trailing(s.subrange(0, s.len() - p.len()), p)
    } else {
        s
    }
}

/// Removes every trailing copy of `p` from `s`.
pub fn trim_trailing<'a>(s: &'a str, p: &str) -> (r: &'a str)
    ensures
        r@ == strip_trailing(s@, p@),
{
    let n = s.unicode_len();
    let m = p.unicode_len();
    if m == 0 {
        return s;
    }
    let mut e: usize = n;
    assert(s@.subrange(0, n as int) =~= s@);
    while e >= m && matches_at(s, e - m, p)
        invariant
            n == s@.len(),
            m == p@.len(),
            m > 0,
            e <= n,
            strip_trailing(s@, p@) == strip_trailing(s@.subrange(0, e as int), p@),
        decreases e,
    {
        let ghost pre = s@.subrange(0, e as int);
        assert(pre.subrange(e - m, e as int) =~= s@.subrange(e - m, e as int));
        assert(pre.subrange(0, e - m) =~= s@.subrange(0, e - m));
        e = e - m;
    }
    proof {
        let pre = s@.subrange(0, e as int);
        if e >= m && occurs_at(pre, e - m, p@) {
            assert(pre.subrange(e - m, e as int) =~= s@.subrange(e - m, e as int));
        }
    }
    s.substring_char(0, e)
}

/// Lexicographic order on characters (code-point order, which is also the
/// byte order of UTF-8).
pub open spec fn text_less(a: Seq<char>, b: Seq<char>) -> bool
    decreases a.len(),
{
    if a.len() == 0 {
        b.len() > 0
    } else if b.len() == 0 {
        false
    } else if a[0] != b[0] {
        a[0] < b[0]
    } else {
        text_less(a.drop_first(), b.drop_first())
    }
}

/// Lexicographic comparison of two texts.
pub fn less_text(a: &str, b: &str) -> (r: bool)
    ensures
        r == text_less(a@, b@),
{
    let n = a.unicode_len();
    let m = b.unicode_len();
    let mut i: usize = 0;
    assert(a@.subrange(0, n as int) =~= a@);
    assert(b@.subrange(0, m as int) =~= b@);
    while i < n && i < m && a.get_char(i) == b.get_char(i)
        invariant
            n == a@.len(),
            m == b@.len(),
            i <= n,
            i <= m,
            text_less(a@, b@) == text_less(a@.subrange(i as int, n as int), b@.subrange(i as int, m as int)),
        decreases n - i,
    {
        assert(a@.subrange(i as int, n as int).drop_first() =~= a@.subrange(i + 1, n as int));
        assert(b@.subrange(i as int, m as int).drop_first() =~= b@.subrange(i + 1, m as int));
        i = i + 1;
    }
    if i == n {
        i < m
    } else if i == m {
        false
    } else {
        a.get_char(i) < b.get_char(i)
    }
}

/// `k` is the first position where `p` occurs in `s`.
pub open spec fn first_at(s: Seq<char>, p: Seq<char>, k: int) -> bool {
    occurs_at(s, k, p) && forall|j: int| 0 <= j < k ==> !#[trigger] occurs_at(s, j, p)
}

/// The first position where `p` occurs in `s`.
pub fn find_first(s: &str, p: &str) -> (r: Option<usize>)
    ensures
        r matches Some(k) ==> first_at(s@, p@, k as int),
        r is None ==> forall|j: int| 0 <= j <= s@.len() ==> !#[trigger] occurs_at(s@, j, p@),
{
    let n = s.unicode_len();
    let mut i: usize = 0;
    while i <= n
        invariant
            n == s@.len(),
            i <= n + 1,
            forall|j: int| 0 <= j < i ==> !#[trigger] occurs_at(s@, j, p@),
        decreases n + 1 - i,
    {
        if matches_at(s, i, p) {
            return Some(i);
        }
        if i == n {
            return None;
        }
        i = i + 1;
    }
    None
}

/// What `str::trim` leaves of a text.
pub uninterp spec fn trimmed(s: Seq<char>) -> Seq<char>;

/// Relies on `str::trim`: the text without its leading and trailing white
/// space; the result depends on the text alone.
#[verifier::external_body]
pub(crate) fn trim_text(s: &str) -> (r: &str)
    ensures
        r@ == trimmed(s@),
{
    s.trim()
}

} // verus!
