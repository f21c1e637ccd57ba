//! Case-insensitive `*` wildcard patterns, as the classification rules use them.
//!
//! A pattern matches a text when the text can be cut into pieces that the
//! pattern's literal characters equal and its `*`s each absorb (possibly empty).

use vstd::prelude::*;
use crate::text::{
    char_views, ends_with, find_from, free_of, join_with, lemma_split_join, lower, lower_chars,
    occurs_at, split_chars, starts_with,
};

verus! {

// ---------------------------------------------------------------------------
// The meaning of a pattern
// ---------------------------------------------------------------------------

/// `v` matches the pattern `p`, in which `*` stands for any run of characters.
pub open spec fn glob(p: Seq<char>, v: Seq<char>) -> bool
    decreases p.len() + v.len(),
{
    if p.len() == 0 {
        v.len() == 0
    } else if p[0] == '*' {
        glob(p.drop_first(), v) || (v.len() > 0 && glob(p, v.drop_first()))
    } else {
        v.len() > 0 && p[0] == v[0] && glob(p.drop_first(), v.drop_first())
    }
}

/// `value` matches `pattern` when both are taken in ASCII lower case.
pub open spec fn wildcard_matches(pattern: Seq<char>, value: Seq<char>) -> bool {
    glob(lower(pattern), lower(value))
}

// ---------------------------------------------------------------------------
// Lemmas on `glob`
// ---------------------------------------------------------------------------

proof fn lemma_glob_empty_text(p: Seq<char>)
    requires
        forall|i: int| 0 <= i < p.len() ==> p[i] == '*',
    ensures
        glob(p, Seq::<char>::empty()),
    decreases p.len(),
{
    if p.len() > 0 {
        lemma_glob_empty_text(p.drop_first());
    }
}

/// A star-free prefix must be matched literally.
proof fn lemma_glob_literal(q: Seq<char>, r: Seq<char>, v: Seq<char>)
    requires
        free_of(q, '*'),
    ensures
        glob(q + r, v) == (starts_with(v, q) && glob(r, v.skip(q.len() as int))),
    decreases q.len(),
{
    if q.len() == 0 {
        assert(q + r =~= r);
        assert(v.skip(0) =~= v);
        assert(v.subrange(0, 0) =~= q);
    } else {
        let qr = q + r;
        assert(qr[0] == q[0]);
        assert(qr.drop_first() =~= q.drop_first() + r);
        if v.len() > 0 {
            lemma_glob_literal(q.drop_first(), r, v.drop_first());
            if q.len() <= v.len() {
                assert(v.drop_first().skip(q.len() - 1) =~= v.skip(q.len() as int));
            }
            if starts_with(v, q) {
                assert(v.drop_first().subrange(0, q.len() - 1) =~= q.drop_first()) by {
                    assert forall|k: int| 0 <= k < q.len() - 1 implies v.drop_first().subrange(
                        0,
                        q.len() - 1,
                    )[k] == q.drop_first()[k] by {
                        assert(v.subrange(0, q.len() as int)[k + 1] == q[k + 1]);
                    }
                }
                assert(v.subrange(0, q.len() as int)[0] == q[0]);
            }
            if v[0] == q[0] && starts_with(v.drop_first(), q.drop_first()) {
                assert(v.subrange(0, q.len() as int) =~= q) by {
                    assert forall|k: int| 0 <= k < q.len() implies v.subrange(
                        0,
                        q.len() as int,
                    )[k] == q[k] by {
                        if k > 0 {
                            assert(v.drop_first().subrange(0, q.len() - 1)[k - 1]
                                == q.drop_first()[k - 1]);
                        }
                    }
                }
            }
        }
    }
}

/// A `*` followed by `r` matches `v` when `r` matches some suffix of `v`.
proof fn lemma_star_intro(r: Seq<char>, v: Seq<char>, j: int)
    requires
        0 <= j <= v.len(),
        glob(r, v.skip(j)),
    ensures
        glob(seq!['*'] + r, v),
    decreases j,
{
    let p = seq!['*'] + r;
    assert(p[0] == '*');
    assert(p.drop_first() =~= r);
    if j == 0 {
        assert(v.skip(0) =~= v);
    } else {
        assert(v.drop_first().skip(j - 1) =~= v.skip(j));
        lemma_star_intro(r, v.drop_first(), j - 1);
    }
}

/// When a `*` followed by `r` matches `v`, some suffix of `v` matches `r`.
proof fn lemma_star_elim(r: Seq<char>, v: Seq<char>) -> (j: int)
    requires
        glob(seq!['*'] + r, v),
    ensures
        0 <= j <= v.len(),
        glob(r, v.skip(j)),
    decreases v.len(),
{
    let p = seq!['*'] + r;
    assert(p[0] == '*');
    assert(p.drop_first() =~= r);
    if glob(r, v) {
        assert(v.skip(0) =~= v);
        0
    } else {
        let j = lemma_star_elim(r, v.drop_first());
        assert(v.drop_first().skip(j) =~= v.skip(j + 1));
        j + 1
    }
}

/// A `*`-led pattern that matches a later suffix also matches an earlier one.
proof fn lemma_star_earlier(r: Seq<char>, v: Seq<char>, a: int, b: int)
    requires
        0 <= b <= a <= v.len(),
        glob(seq!['*'] + r, v.skip(a)),
    ensures
        glob(seq!['*'] + r, v.skip(b)),
{
    let j = lemma_star_elim(r, v.skip(a));
    assert(v.skip(a).skip(j) =~= v.skip(b).skip(a - b + j));
    lemma_star_intro(r, v.skip(b), a - b + j);
}

/// Two `*` in a row match what one does.
proof fn lemma_double_star(x: Seq<char>, w: Seq<char>)
    ensures
        glob(seq!['*'] + (seq!['*'] + x), w) == glob(seq!['*'] + x, w),
{
    if glob(seq!['*'] + (seq!['*'] + x), w) {
        let j = lemma_star_elim(seq!['*'] + x, w);
        assert(w.skip(0) =~= w);
        lemma_star_earlier(x, w, j, 0);
    }
    if glob(seq!['*'] + x, w) {
        assert(w.skip(0) =~= w);
        lemma_star_intro(seq!['*'] + x, w, 0);
    }
}

/// A star-free pattern matches exactly itself.
proof fn lemma_glob_star_free(q: Seq<char>, v: Seq<char>)
    requires
        free_of(q, '*'),
    ensures
        glob(q, v) == (v == q),
{
    lemma_glob_literal(q, Seq::empty(), v);
    assert(q + Seq::<char>::empty() =~= q);
    if v == q {
        assert(v.subrange(0, q.len() as int) =~= q);
    }
    if starts_with(v, q) && v.skip(q.len() as int).len() == 0 {
        assert(v =~= v.subrange(0, q.len() as int));
    }
}

/// `*` followed by a star-free `q` matches exactly the texts that end with `q`.
proof fn lemma_glob_star_suffix(q: Seq<char>, w: Seq<char>)
    requires
        free_of(q, '*'),
    ensures
        glob(seq!['*'] + q, w) == ends_with(w, q),
{
    if glob(seq!['*'] + q, w) {
        let j = lemma_star_elim(q, w);
        lemma_glob_star_free(q, w.skip(j));
        assert(w.subrange(w.len() - q.len(), w.len() as int) =~= w.skip(j));
    }
    if ends_with(w, q) {
        let j = w.len() - q.len();
        assert(w.skip(j) =~= w.subrange(j, w.len() as int));
        lemma_glob_star_free(q, w.skip(j));
        lemma_star_intro(q, w, j);
    }
}

/// `*`, a star-free nonempty piece, then `*` and `x`: the piece may be placed at its
/// first occurrence.
proof fn lemma_glob_first_occurrence(q: Seq<char>, x: Seq<char>, v: Seq<char>, pos: int)
    requires
        free_of(q, '*'),
        0 <= pos <= v.len(),
    ensures
        glob(seq!['*'] + (q + (seq!['*'] + x)), v.skip(pos)) <==> exists|f: int|
            pos <= f && occurs_at(v, q, f) && (forall|k: int|
                pos <= k < f ==> !occurs_at(v, q, k)) && glob(
                seq!['*'] + x,
                v.skip(f + q.len()),
            ),
{
    let w = v.skip(pos);
    let rest = seq!['*'] + x;
    if glob(seq!['*'] + (q + rest), w) {
        let j = lemma_star_elim(q + rest, w);
        lemma_glob_literal(q, rest, w.skip(j));
        assert(w.skip(j) =~= v.skip(pos + j));
        assert(v.skip(pos + j).skip(q.len() as int) =~= v.skip(pos + j + q.len()));
        assert(occurs_at(v, q, pos + j)) by {
            assert(v.subrange(pos + j, pos + j + q.len()) =~= v.skip(pos + j).subrange(
                0,
                q.len() as int,
            ));
        }
        // the first occurrence at or after pos
        let f = choose_first(v, q, pos, pos + j);
        lemma_star_earlier(x, v, pos + j + q.len(), f + q.len());
    }
    if exists|f: int|
        pos <= f && occurs_at(v, q, f) && (forall|k: int| pos <= k < f ==> !occurs_at(v, q, k))
            && glob(rest, v.skip(f + q.len())) {
        let f = choose|f: int|
            pos <= f && occurs_at(v, q, f) && (forall|k: int| pos <= k < f ==> !occurs_at(v, q, k))
                && glob(rest, v.skip(f + q.len()));
        assert(w.skip(f - pos) =~= v.skip(f));
        assert(v.skip(f).subrange(0, q.len() as int) =~= v.subrange(f, f + q.len()));
        assert(v.skip(f).skip(q.len() as int) =~= v.skip(f + q.len()));
        lemma_glob_literal(q, rest, v.skip(f));
        lemma_star_intro(q + rest, w, f - pos);
    }
}

/// The first occurrence at or after `pos`, given one at `at`.
proof fn choose_first(v: Seq<char>, q: Seq<char>, pos: int, at: int) -> (f: int)
    requires
        pos <= at,
        occurs_at(v, q, at),
    ensures
        pos <= f <= at,
        occurs_at(v, q, f),
        forall|k: int| pos <= k < f ==> !occurs_at(v, q, k),
    decreases at - pos,
{
    if occurs_at(v, q, pos) {
        pos
    } else {
        choose_first(v, q, pos + 1, at)
    }
}

// ---------------------------------------------------------------------------
// Lemmas on `join_stars`
// ---------------------------------------------------------------------------

proof fn lemma_join_front(s: Seq<Seq<char>>)
    requires
        s.len() >= 2,
    ensures
        join_with_stars(s) == s[0] + (seq!['*'] + join_with_stars(s.drop_first())),
    decreases s.len(),
{
    if s.len() == 2 {
        assert(s.drop_last().len() == 1);
        assert(s.drop_first().len() == 1);
        assert(join_with_stars(s.drop_last()) == s[0]);
        assert(join_with_stars(s.drop_first()) == s[1]);
        assert(s[0] + seq!['*'] + s.last() =~= s[0] + (seq!['*'] + s[1]));
    } else {
        lemma_join_front(s.drop_last());
        assert(s.drop_last().drop_first() =~= s.drop_first().drop_last());
        assert(s.drop_first().last() == s.last());
        assert(join_with_stars(s.drop_first()) == join_with_stars(s.drop_first().drop_last()) + seq!['*']
            + s.last());
        assert(s.drop_last()[0] == s[0]);
        assert(join_with_stars(s) =~= s[0] + (seq!['*'] + join_with_stars(s.drop_first())));
    }
}

/// The pieces joined back with `*`.
pub open spec fn join_with_stars(parts: Seq<Seq<char>>) -> Seq<char> {
    join_with(parts, '*')
}

/// The pattern from piece `i` on: `T(i) = P[i] * P[i+1] * ... * P[k-1]`.
pub open spec fn tail_pattern(parts: Seq<Seq<char>>, i: int) -> Seq<char> {
    join_with_stars(parts.subrange(i, parts.len() as int))
}

proof fn lemma_tail_step(parts: Seq<Seq<char>>, i: int)
    requires
        0 <= i < parts.len() - 1,
    ensures
        tail_pattern(parts, i) == parts[i] + (seq!['*'] + tail_pattern(parts, i + 1)),
{
    let s = parts.subrange(i, parts.len() as int);
    lemma_join_front(s);
    assert(s.drop_first() =~= parts.subrange(i + 1, parts.len() as int));
}

proof fn lemma_tail_last(parts: Seq<Seq<char>>)
    requires
        parts.len() >= 1,
    ensures
        tail_pattern(parts, parts.len() - 1) == parts.last(),
{
    let s = parts.subrange(parts.len() - 1, parts.len() as int);
    assert(s.len() == 1);
    assert(s[0] == parts.last());
}

// ---------------------------------------------------------------------------
// Executable matching
// ---------------------------------------------------------------------------

/// Whether `v` begins with `q`.
fn vec_starts_with(v: &Vec<char>, q: &Vec<char>) -> (b: bool)
    ensures
        b == starts_with(v@, q@),
{
    if q.len() > v.len() {
        return false;
    }
    let mut k: usize = 0;
    while k < q.len()
        invariant
            q.len() <= v.len(),
            k <= q.len(),
            forall|t: int| 0 <= t < k ==> v@[t] == q@[t],
        decreases q.len() - k,
    {
        if v[k] != q[k] {
            assert(v@.subrange(0, q.len() as int)[k as int] != q@[k as int]);
            return false;
        }
        k = k + 1;
    }
    assert(v@.subrange(0, q.len() as int) =~= q@);
    true
}

/// Whether `v[from..]` ends with `q`.
fn vec_ends_with_from(v: &Vec<char>, from: usize, q: &Vec<char>) -> (b: bool)
    requires
        from <= v.len(),
    ensures
        b == ends_with(v@.skip(from as int), q@),
{
    let ghost w = v@.skip(from as int);
    if q.len() > v.len() - from {
        return false;
    }
    let start = v.len() - q.len();
    let mut k: usize = 0;
    while k < q.len()
        invariant
            start == v.len() - q.len(),
            from <= start,
            k <= q.len(),
            forall|t: int| 0 <= t < k ==> v@[start + t] == q@[t],
            w == v@.skip(from as int),
            w.len() - q.len() + from == start,
        decreases q.len() - k,
    {
        if v[start + k] != q[k] {
            assert(w.subrange(w.len() - q.len(), w.len() as int)[k as int] != q@[k as int]);
            return false;
        }
        k = k + 1;
    }
    assert(w.subrange(w.len() - q.len(), w.len() as int) =~= q@);
    true
}

/// Whether two character vectors are equal.
fn vec_eq(a: &Vec<char>, b: &Vec<char>) -> (r: bool)
    ensures
        r == (a@ == b@),
{
    if a.len() != b.len() {
        return false;
    }
    let mut k: usize = 0;
    while k < a.len()
        invariant
            a.len() == b.len(),
            k <= a.len(),
            forall|t: int| 0 <= t < k ==> a@[t] == b@[t],
        decreases a.len() - k,
    {
        if a[k] != b[k] {
            return false;
        }
        k = k + 1;
    }
    assert(a@ =~= b@);
    true
}

/// Whether `value` matches `pattern`, ignoring ASCII case; `*` in the pattern stands for
/// any run of characters, and a pattern without `*` must equal the value.
pub fn wildcard_match(pattern: &str, value: &str) -> (b: bool)
    ensures
        b == wildcard_matches(pattern@, value@),
{
    let p = lower_chars(pattern);
    let v = lower_chars(value);
    if p.len() == 1 && p[0] == '*' {
        proof {
            assert(p@ =~= seq!['*'] + Seq::<char>::empty());
            lemma_glob_empty_text(Seq::<char>::empty());
            assert(v@.skip(v@.len() as int) =~= Seq::<char>::empty());
            lemma_star_intro(Seq::<char>::empty(), v@, v@.len() as int);
        }
        return true;
    }
    let parts = split_chars(&p, '*');
    let ghost ps = char_views(parts@);
    let k = parts.len();
    proof {
        lemma_split_join(p@, '*');
        assert(ps.len() == k);
        assert forall|i: int| 0 <= i < k implies free_of(#[trigger] ps[i], '*') by {
            assert(ps[i] == parts@[i]@);
        }
        assert(ps.subrange(0, k as int) =~= ps);
    }
    if k == 1 {
        proof {
            assert(p@ == ps[0]);
            lemma_glob_star_free(p@, v@);
        }
        return vec_eq(&p, &v);
    }
    // The first piece is a literal prefix.
    let first = &parts[0];
    let mut pos: usize = 0;
    proof {
        lemma_tail_step(ps, 0);
        assert(ps[0] == first@);
    }
    if first.len() > 0 {
        if !vec_starts_with(&v, first) {
            proof {
                lemma_glob_literal(first@, seq!['*'] + tail_pattern(ps, 1), v@);
            }
            return false;
        }
        pos = first.len();
        proof {
            lemma_glob_literal(first@, seq!['*'] + tail_pattern(ps, 1), v@);
        }
    } else {
        proof {
            assert(first@ + (seq!['*'] + tail_pattern(ps, 1)) =~= seq!['*'] + tail_pattern(
                ps,
                1,
            ));
            assert(v@.skip(0) =~= v@);
        }
    }
    // The middle pieces are placed at their first occurrence.
    let mut i: usize = 1;
    while i + 1 < k
        invariant
            k == parts.len() == ps.len(),
            ps == char_views(parts@),
            p@ == lower(pattern@),
            v@ == lower(value@),
            2 <= k,
            1 <= i <= k - 1,
            pos <= v.len(),
            forall|t: int| 0 <= t < k ==> free_of(#[trigger] ps[t], '*'),
            glob(p@, v@) == glob(seq!['*'] + tail_pattern(ps, i as int), v@.skip(pos as int)),
        decreases k - i,
    {
        let part = &parts[i];
        proof {
            assert(ps[i as int] == part@);
            lemma_tail_step(ps, i as int);
        }
        if part.len() > 0 {
            match find_from(&v, part, pos) {
                Some(f) => {
                    proof {
                        lemma_glob_first_occurrence(
                            part@,
                            tail_pattern(ps, i + 1),
                            v@,
                            pos as int,
                        );
                    }
                    pos = f + part.len();
                },
                None => {
                    proof {
                        lemma_glob_first_occurrence(
                            part@,
                            tail_pattern(ps, i + 1),
                            v@,
                            pos as int,
                        );
                        assert forall|f: int| pos <= f && occurs_at(v@, part@, f) implies false by {}
                        assert(!glob(seq!['*'] + tail_pattern(ps, i as int), v@.skip(pos as int)));
                    }
                    return false;
                },
            }
        } else {
            proof {
                assert(part@ + (seq!['*'] + tail_pattern(ps, i + 1)) =~= seq!['*']
                    + tail_pattern(ps, i + 1));
                lemma_double_star(tail_pattern(ps, i + 1), v@.skip(pos as int));
            }
        }
        i = i + 1;
    }
    // The last piece is a literal suffix of what is left.
    let last = &parts[k - 1];
    proof {
        assert(ps[k - 1] == last@);
        lemma_tail_last(ps);
        assert(ps.last() == ps[k - 1]);
        lemma_glob_star_suffix(last@, v@.skip(pos as int));
    }
    vec_ends_with_from(&v, pos, last)
}

} // verus!

verus! {

proof fn lemma_lower_idempotent(s: Seq<char>)
    ensures
        lower(lower(s)) == lower(s),
{
    assert(lower(lower(s)) =~= lower(s));
}

/// The pattern `*` matches every value.
pub proof fn lemma_star_matches_everything(v: Seq<char>)
    ensures
        wildcard_matches(seq!['*'], v),
{
    assert(lower(seq!['*']) =~= seq!['*'] + Seq::<char>::empty());
    lemma_glob_empty_text(Seq::<char>::empty());
    assert(lower(v).skip(lower(v).len() as int) =~= Seq::<char>::empty());
    lemma_star_intro(Seq::<char>::empty(), lower(v), lower(v).len() as int);
}

/// A pattern without `*` matches exactly the values equal to it, ignoring ASCII case.
pub proof fn lemma_plain_pattern_is_equality(p: Seq<char>, v: Seq<char>)
    requires
        free_of(p, '*'),
    ensures
        wildcard_matches(p, v) == (lower(p) == lower(v)),
{
    assert(free_of(lower(p), '*')) by {
        assert forall|i: int| 0 <= i < lower(p).len() implies lower(p)[i] != '*' by {
            assert(p[i] != '*');
        }
    }
    lemma_glob_star_free(lower(p), lower(v));
}

/// A pattern `prefix*` (the prefix without `*`) matches exactly the values that begin
/// with the prefix, ignoring ASCII case.
pub proof fn lemma_prefix_pattern(prefix: Seq<char>, v: Seq<char>)
    requires
        free_of(prefix, '*'),
    ensures
        wildcard_matches(prefix + seq!['*'], v) == starts_with(lower(v), lower(prefix)),
{
    let q = lower(prefix);
    let w = lower(v);
    assert(free_of(q, '*')) by {
        assert forall|i: int| 0 <= i < q.len() implies q[i] != '*' by {
            assert(prefix[i] != '*');
        }
    }
    assert(lower(prefix + seq!['*']) =~= q + (seq!['*'] + Seq::<char>::empty()));
    lemma_glob_literal(q, seq!['*'] + Seq::<char>::empty(), w);
    if starts_with(w, q) {
        let rest = w.skip(q.len() as int);
        lemma_glob_empty_text(Seq::<char>::empty());
        assert(rest.skip(rest.len() as int) =~= Seq::<char>::empty());
        lemma_star_intro(Seq::<char>::empty(), rest, rest.len() as int);
    }
}

/// Matching ignores ASCII case on both sides.
pub proof fn lemma_match_ignores_case(p: Seq<char>, v: Seq<char>)
    ensures
        wildcard_matches(p, v) == wildcard_matches(lower(p), lower(v)),
{
    lemma_lower_idempotent(p);
    lemma_lower_idempotent(v);
}

} // verus!
