//! Laws of route recognition, stated over the models that the combinators'
//! contracts use.
use vstd::prelude::*;

use crate::method::Method;
use crate::param::{ParseToParam, Slug, SLUG_HYPHEN};
use crate::path::{
    head_before, lemma_position_unique, literal_rest, strip_separator,
    tail_from, SEPARATOR,
};
use crate::pattern::Pattern;
use crate::recognizer::root_matches;

verus! {

/// `root` matches exactly when nothing but the separator is left and the
/// method is GET; the answer depends on nothing else, so asking twice gives
/// the same answer.
pub proof fn lemma_root_matches_only_separator_get(method: Method, unmatched: Seq<char>)
    ensures
        root_matches(method, unmatched) <==> (unmatched == seq![SEPARATOR] && method is Get),
        root_matches(Method::Get, seq![SEPARATOR]),
{
}

/// A bare literal `P` matches the path `/P` and leaves nothing; it matches
/// every path that starts with `/P`; and it matches no path that starts
/// neither with `/P` nor with `P`.
pub proof fn lemma_literal_segment(lit: &str, method: Method, p: Seq<char>)
    ensures
        lit.spec_match(method, seq![SEPARATOR] + lit@) == Some(Seq::<char>::empty()),
        (seq![SEPARATOR] + lit@).is_prefix_of(p) ==> lit.spec_match(method, p) is Some,
        !(seq![SEPARATOR] + lit@).is_prefix_of(p) && !lit@.is_prefix_of(p) ==> lit.spec_match(
            method,
            p,
        ) is None,
{
    let sp = seq![SEPARATOR] + lit@;
    assert(strip_separator(sp) =~= lit@);
    assert(lit@.skip(lit@.len() as int) =~= Seq::<char>::empty());
    if sp.is_prefix_of(p) {
        assert(strip_separator(p) =~= p.drop_first());
        assert(lit@ =~= strip_separator(p).subrange(0, lit@.len() as int));
    }
    if !sp.is_prefix_of(p) && !lit@.is_prefix_of(p) && lit.spec_match(method, p) is Some {
        if p.len() > 0 && p[0] == SEPARATOR {
            assert(sp =~= p.subrange(0, sp.len() as int));
        }
    }
}

/// A literal paired with a method matches exactly when the request has that
/// method and what is left, after an optional separator, starts with the
/// literal: under any other method it never matches.
pub proof fn lemma_method_segment(pattern: (&str, Method), method: Method, p: Seq<char>)
    ensures
        pattern.spec_match(method, p) is Some <==> (pattern.1.same(method)
            && pattern.0@.is_prefix_of(strip_separator(p))),
        !pattern.1.same(method) ==> pattern.spec_match(method, p) is None,
        pattern.1.same(method) ==> pattern.spec_match(method, p) == pattern.0.spec_match(
            method,
            p,
        ),
{
}

/// Nested literals compose: on `/A/B`, the literal `A` leaves `/B`, on which
/// the literal `B` leaves nothing; while `B` alone does not match `/A/B`
/// when the two literals begin differently.
pub proof fn lemma_nested_literals(a: Seq<char>, b: Seq<char>)
    requires
        b.len() > 0,
        b[0] != SEPARATOR,
        a.len() > 0 ==> a[0] != b[0],
    ensures
        literal_rest(a, seq![SEPARATOR] + a + seq![SEPARATOR] + b) == Some(
            seq![SEPARATOR] + b,
        ),
        literal_rest(b, seq![SEPARATOR] + b) == Some(Seq::<char>::empty()),
        literal_rest(b, seq![SEPARATOR] + a + seq![SEPARATOR] + b) is None,
{
    let p = seq![SEPARATOR] + a + seq![SEPARATOR] + b;
    assert(strip_separator(p) =~= a + seq![SEPARATOR] + b);
    assert(a =~= (a + seq![SEPARATOR] + b).subrange(0, a.len() as int));
    assert((a + seq![SEPARATOR] + b).skip(a.len() as int) =~= seq![SEPARATOR] + b);
    assert(strip_separator(seq![SEPARATOR] + b) =~= b);
    assert(b.skip(b.len() as int) =~= Seq::<char>::empty());
    assert(b.subrange(0, b.len() as int) =~= b);
    if a.len() > 0 {
        assert((a + seq![SEPARATOR] + b)[0] == a[0]);
    } else {
        assert((a + seq![SEPARATOR] + b)[0] == SEPARATOR);
    }
}

/// Below a literal `P`, on the path `/P/` exactly the separator is left,
/// which is where a mounted tree's `root` matches under GET.
pub proof fn lemma_mount_below_literal(lit: Seq<char>)
    ensures
        literal_rest(lit, seq![SEPARATOR] + lit + seq![SEPARATOR]) == Some(seq![SEPARATOR]),
        root_matches(Method::Get, seq![SEPARATOR]),
{
    let p = seq![SEPARATOR] + lit + seq![SEPARATOR];
    assert(strip_separator(p) =~= lit + seq![SEPARATOR]);
    assert(lit =~= (lit + seq![SEPARATOR]).subrange(0, lit.len() as int));
    assert((lit + seq![SEPARATOR]).skip(lit.len() as int) =~= seq![SEPARATOR]);
}

/// A slug reads as its head: on a segment `head-title` (and on a bare
/// `head`), `Slug<u64>` reads what `u64` reads on `head`, and moves past the
/// whole segment.
pub proof fn lemma_slug_reads_head(head: Seq<char>, title: Seq<char>, rest: Seq<char>)
    requires
        !head.contains(SEPARATOR),
        !head.contains(SLUG_HYPHEN),
        !title.contains(SEPARATOR),
        rest.len() == 0 || rest[0] == SEPARATOR,
    ensures
        <Slug<u64> as ParseToParam>::spec_parse(head + seq![SLUG_HYPHEN] + title + rest)
            == match <u64 as ParseToParam>::spec_parse(head) {
            Some((v, _)) => Some((v, rest)),
            None => None,
        },
        <Slug<u64> as ParseToParam>::spec_parse(head + rest)
            == match <u64 as ParseToParam>::spec_parse(head) {
            Some((v, _)) => Some((v, rest)),
            None => None,
        },
{
    let seg = head + seq![SLUG_HYPHEN] + title;
    let input = seg + rest;
    lemma_segment_of(seg, rest);
    assert(input == head + seq![SLUG_HYPHEN] + title + rest);
    assert forall|j: int| 0 <= j < head.len() implies seg[j] != SLUG_HYPHEN by {
        assert(seg[j] == head[j]);
    }
    assert(seg[head.len() as int] == SLUG_HYPHEN);
    lemma_position_unique(seg, SLUG_HYPHEN, head.len() as int);
    assert(head_before(seg, SLUG_HYPHEN) =~= head);
    lemma_segment_of(head, rest);
    assert forall|j: int| 0 <= j < head.len() implies head[j] != SLUG_HYPHEN by {
        assert(head.contains(head[j]));
    }
    lemma_position_unique(head, SLUG_HYPHEN, head.len() as int);
    assert(head_before(head, SLUG_HYPHEN) =~= head);
}

/// On `seg + rest`, where `seg` holds no separator and `rest` is empty or
/// starts with one, the segment is `seg` and what is left is `rest`.
proof fn lemma_segment_of(seg: Seq<char>, rest: Seq<char>)
    requires
        !seg.contains(SEPARATOR),
        rest.len() == 0 || rest[0] == SEPARATOR,
    ensures
        head_before(seg + rest, SEPARATOR) == seg,
        tail_from(seg + rest, SEPARATOR) == rest,
{
    let input = seg + rest;
    assert forall|j: int| 0 <= j < seg.len() implies input[j] != SEPARATOR by {
        assert(input[j] == seg[j]);
        assert(seg.contains(seg[j]));
    }
    if rest.len() > 0 {
        assert(input[seg.len() as int] == rest[0]);
    }
    lemma_position_unique(input, SEPARATOR, seg.len() as int);
    assert(input.take(seg.len() as int) =~= seg);
    assert(input.skip(seg.len() as int) =~= rest);
}

} // verus!
