//! The path model: what a separator, a segment and a literal match mean on the
//! characters of a path, and the executable helpers that compute them.
use vstd::prelude::*;

verus! {

/// The character that separates path segments.
pub const SEPARATOR: char = '/';

/// `p` without its leading separator, if it has one.
pub open spec fn strip_separator(p: Seq<char>) -> Seq<char> {
    if p.len() > 0 && p[0] == SEPARATOR {
        p.drop_first()
    } else {
        p
    }
}

/// The index of the first `c` in `p`, or the length of `p` if there is none.
pub open spec fn position(p: Seq<char>, c: char) -> nat
    decreases p.len(),
{
    if p.len() == 0 {
        0
    } else if p[0] == c {
        0
    } else {
        1 + position(p.drop_first(), c)
    }
}

/// The part of `p` before its first `c` (all of `p` if it has none).
pub open spec fn head_before(p: Seq<char>, c: char) -> Seq<char> {
    p.take(position(p, c) as int)
}

/// The part of `p` from its first `c` on (empty if it has none).
pub open spec fn tail_from(p: Seq<char>, c: char) -> Seq<char> {
    p.skip(position(p, c) as int)
}

/// What is left of `p` after the literal `lit`, once a leading separator is
/// stripped; `None` when `lit` does not begin what is left.
pub open spec fn literal_rest(lit: Seq<char>, p: Seq<char>) -> Option<Seq<char>> {
    let q = strip_separator(p);
    if lit.is_prefix_of(q) {
        Some(q.skip(lit.len() as int))
    } else {
        None
    }
}

pub proof fn lemma_position_bounds(p: Seq<char>, c: char)
    ensures
        position(p, c) <= p.len(),
        position(p, c) < p.len() ==> p[position(p, c) as int] == c,
        forall|j: int| 0 <= j < position(p, c) ==> p[j] != c,
    decreases p.len(),
{
    if p.len() > 0 && p[0] != c {
        lemma_position_bounds(p.drop_first(), c);
        assert forall|j: int| 0 <= j < position(p, c) implies p[j] != c by {
            if j > 0 {
                assert(p[j] == p.drop_first()[j - 1]);
            }
        }
    }
}

pub proof fn lemma_position_unique(p: Seq<char>, c: char, i: int)
    requires
        0 <= i <= p.len(),
        i < p.len() ==> p[i] == c,
        forall|j: int| 0 <= j < i ==> p[j] != c,
    ensures
        position(p, c) == i,
    decreases p.len(),
{
    if p.len() > 0 && p[0] != c {
        let q = p.drop_first();
        assert forall|j: int| 0 <= j < i - 1 implies q[j] != c by {
            assert(q[j] == p[j + 1]);
        }
        if i - 1 < q.len() {
            assert(q[i - 1] == p[i]);
        }
        lemma_position_unique(q, c, i - 1);
    }
}

/// Whether the text `s` begins with `prefix`.
pub fn starts_with(s: &str, prefix: &str) -> (r: bool)
    ensures
        r == prefix@.is_prefix_of(s@),
{
    let n = prefix.unicode_len();
    let m = s.unicode_len();
    if n > m {
        return false;
    }
    let mut i: usize = 0;
    while i < n
        invariant
            n == prefix@.len(),
            m == s@.len(),
            n <= m,
            0 <= i <= n,
            forall|j: int| 0 <= j < i ==> prefix@[j] == s@[j],
        decreases n - i,
    {
        if prefix.get_char(i) != s.get_char(i) {
            return false;
        }
        i = i + 1;
    }
    assert(prefix@ =~= s@.take(n as int));
    true
}

/// The index of the first `c` in `s`, or the length of `s` if there is none.
pub fn find_char(s: &str, c: char) -> (r: usize)
    ensures
        r == position(s@, c),
{
    let m = s.unicode_len();
    let mut i: usize = 0;
    while i < m
        invariant
            m == s@.len(),
            0 <= i <= m,
            forall|j: int| 0 <= j < i ==> s@[j] != c,
        decreases m - i,
    {
        if s.get_char(i) == c {
            proof {
                lemma_position_unique(s@, c, i as int);
            }
            return i;
        }
        i = i + 1;
    }
    proof {
        lemma_position_unique(s@, c, i as int);
    }
    i
}

/// `s` without its leading separator, if it has one.
pub fn skip_separator<'a>(s: &'a str) -> (r: &'a str)
    ensures
        r@ == strip_separator(s@),
{
    let m = s.unicode_len();
    if m > 0 && s.get_char(0) == SEPARATOR {
        let r = s.substring_char(1, m);
        assert(r@ =~= s@.drop_first());
        r
    } else {
        s
    }
}

} // verus!
