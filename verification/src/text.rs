//! Character-level text operations, each stated over the `Seq<char>` view of a string.

use vstd::prelude::*;

verus! {

/// `String::push` appends one character at the end of the string.
pub assume_specification[ String::push ](s: &mut String, ch: char)
    ensures
        final(s)@ == old(s)@.push(ch),
;

// ---------------------------------------------------------------------------
// Specifications
// ---------------------------------------------------------------------------

/// The characters that `char::is_whitespace` accepts: the Unicode `White_Space` property.
pub open spec fn is_whitespace(c: char) -> bool {
    ||| ('\u{9}' <= c && c <= '\u{d}')
    ||| c == ' '
    ||| c == '\u{85}'
    ||| c == '\u{a0}'
    ||| c == '\u{1680}'
    ||| ('\u{2000}' <= c && c <= '\u{200a}')
    ||| c == '\u{2028}'
    ||| c == '\u{2029}'
    ||| c == '\u{202f}'
    ||| c == '\u{205f}'
    ||| c == '\u{3000}'
}

/// `s` without its leading whitespace.
pub open spec fn trim_start(s: Seq<char>) -> Seq<char>
    decreases s.len(),
{
    if s.len() > 0 && is_whitespace(s[0]) {
        trim_start(s.drop_first())
    } else {
        s
    }
}

/// `s` without its trailing whitespace.
pub open spec fn trim_end(s: Seq<char>) -> Seq<char>
    decreases s.len(),
{
    if s.len() > 0 && is_whitespace(s.last()) {
        trim_end(s.drop_last())
    } else {
        s
    }
}

/// `s` without leading and trailing whitespace, as `str::trim` gives it.
pub open spec fn trim(s: Seq<char>) -> Seq<char> {
    trim_end(trim_start(s))
}

/// ASCII lower case of one character: `A`..`Z` become `a`..`z`, all else stays.
pub open spec fn lower_char(c: char) -> char {
    if 'A' <= c && c <= 'Z' {
        ((c as u32) + 32) as char
    } else {
        c
    }
}

/// ASCII lower case of a whole text, as `str::to_ascii_lowercase` gives it.
pub open spec fn lower(s: Seq<char>) -> Seq<char> {
    s.map_values(|c: char| lower_char(c))
}

/// The decimal digit character for `d < 10`.
pub open spec fn digit(d: nat) -> char {
    ((d + 48) as u8) as char
}

/// The decimal rendering of `n`, without sign or leading zeros.
pub open spec fn decimal(n: nat) -> Seq<char>
    decreases n,
{
    if n < 10 {
        seq![digit(n)]
    } else {
        decimal(n / 10).push(digit(n % 10))
    }
}

/// `prefix` is a prefix of `s`.
pub open spec fn starts_with(s: Seq<char>, prefix: Seq<char>) -> bool {
    prefix.len() <= s.len() && s.subrange(0, prefix.len() as int) == prefix
}

/// `suffix` is a suffix of `s`.
pub open spec fn ends_with(s: Seq<char>, suffix: Seq<char>) -> bool {
    suffix.len() <= s.len() && s.subrange(s.len() - suffix.len(), s.len() as int) == suffix
}

/// `needle` occurs in `hay` starting at position `i`.
pub open spec fn occurs_at(hay: Seq<char>, needle: Seq<char>, i: int) -> bool {
    0 <= i && i + needle.len() <= hay.len() && hay.subrange(i, i + needle.len()) == needle
}

/// `needle` occurs somewhere in `hay`.
pub open spec fn contains(hay: Seq<char>, needle: Seq<char>) -> bool {
    exists|i: int| occurs_at(hay, needle, i)
}


/// `q` holds no `sep`.
pub open spec fn free_of(q: Seq<char>, sep: char) -> bool {
    forall|i: int| 0 <= i < q.len() ==> q[i] != sep
}

/// The pieces of `s` between the occurrences of `sep`, as `str::split` with a character
/// yields them: one more piece than there are separators, empty pieces kept.
pub open spec fn split(s: Seq<char>, sep: char) -> Seq<Seq<char>>
    decreases s.len(),
{
    if s.len() == 0 {
        seq![Seq::<char>::empty()]
    } else {
        let rest = split(s.drop_last(), sep);
        if s.last() == sep {
            rest.push(Seq::<char>::empty())
        } else {
            rest.update(rest.len() - 1, rest.last().push(s.last()))
        }
    }
}

/// The text made of the pieces `parts` with one `sep` between neighbours.
pub open spec fn join_with(parts: Seq<Seq<char>>, sep: char) -> Seq<char>
    decreases parts.len(),
{
    if parts.len() <= 1 {
        if parts.len() == 1 {
            parts[0]
        } else {
            Seq::empty()
        }
    } else {
        join_with(parts.drop_last(), sep) + seq![sep] + parts.last()
    }
}

/// The character views of a list of character vectors.
pub open spec fn char_views(parts: Seq<Vec<char>>) -> Seq<Seq<char>> {
    parts.map_values(|x: Vec<char>| x@)
}

/// The character views of a list of strings.
pub open spec fn string_views(parts: Seq<String>) -> Seq<Seq<char>> {
    parts.map_values(|x: String| x@)
}

/// The leading run of non-whitespace characters of `s`.
pub open spec fn leading_word(s: Seq<char>) -> Seq<char>
    decreases s.len(),
{
    if s.len() == 0 || is_whitespace(s[0]) {
        Seq::empty()
    } else {
        seq![s[0]] + leading_word(s.drop_first())
    }
}

/// The first whitespace-separated word of `s`, empty when there is none.
pub open spec fn first_word(s: Seq<char>) -> Seq<char> {
    leading_word(trim_start(s))
}

// ---------------------------------------------------------------------------
// Lemmas
// ---------------------------------------------------------------------------

proof fn lemma_trim_start_skip(s: Seq<char>, i: int)
    requires
        0 <= i <= s.len(),
        forall|k: int| 0 <= k < i ==> is_whitespace(#[trigger] s[k]),
    ensures
        trim_start(s) == trim_start(s.subrange(i, s.len() as int)),
    decreases i,
{
    if i > 0 {
        assert(s.drop_first().subrange(i - 1, s.drop_first().len() as int) =~= s.subrange(
            i,
            s.len() as int,
        ));
        lemma_trim_start_skip(s.drop_first(), i - 1);
    } else {
        assert(s.subrange(0, s.len() as int) =~= s);
    }
}

proof fn lemma_trim_end_cut(s: Seq<char>, j: int)
    requires
        0 <= j <= s.len(),
        forall|k: int| j <= k < s.len() ==> is_whitespace(#[trigger] s[k]),
    ensures
        trim_end(s) == trim_end(s.subrange(0, j)),
    decreases s.len() - j,
{
    if j < s.len() {
        assert(s.drop_last().subrange(0, j) =~= s.subrange(0, j));
        lemma_trim_end_cut(s.drop_last(), j);
    } else {
        assert(s.subrange(0, j) =~= s);
    }
}

proof fn lemma_leading_word(s: Seq<char>, m: int)
    requires
        0 <= m <= s.len(),
        forall|k: int| 0 <= k < m ==> !is_whitespace(#[trigger] s[k]),
        m == s.len() || is_whitespace(s[m]),
    ensures
        leading_word(s) == s.subrange(0, m),
    decreases m,
{
    if m == 0 {
        assert(s.subrange(0, 0) =~= Seq::<char>::empty());
    } else {
        let t = s.drop_first();
        assert forall|k: int| 0 <= k < m - 1 implies !is_whitespace(#[trigger] t[k]) by {
            assert(t[k] == s[k + 1]);
        }
        if m < s.len() {
            assert(t[m - 1] == s[m]);
        }
        lemma_leading_word(t, m - 1);
        assert(seq![s[0]] + t.subrange(0, m - 1) =~= s.subrange(0, m));
    }
}

/// The pieces of a split are free of the separator, and joining them gives the text back.
pub proof fn lemma_split_join(s: Seq<char>, sep: char)
    ensures
        split(s, sep).len() >= 1,
        forall|i: int| 0 <= i < split(s, sep).len() ==> free_of(#[trigger] split(s, sep)[i], sep),
        join_with(split(s, sep), sep) == s,
    decreases s.len(),
{
    if s.len() > 0 {
        let rest = split(s.drop_last(), sep);
        lemma_split_join(s.drop_last(), sep);
        let now = split(s, sep);
        if s.last() == sep {
            assert(now.drop_last() =~= rest);
            assert(join_with(now, sep) =~= s);
        } else {
            assert(forall|i: int| 0 <= i < rest.len() - 1 ==> now[i] == rest[i]);
            assert forall|i: int| 0 <= i < now.len() implies free_of(#[trigger] now[i], sep) by {
                if i == now.len() - 1 {
                    assert(now[i] == rest.last().push(s.last()));
                    assert(free_of(rest[rest.len() - 1], sep));
                } else {
                    assert(now[i] == rest[i]);
                }
            }
            if rest.len() == 1 {
                assert(join_with(rest, sep) == rest[0]);
                assert(join_with(now, sep) == now[0]);
                assert(join_with(now, sep) =~= s);
            } else {
                assert(now.drop_last() =~= rest.drop_last());
                assert(join_with(rest, sep) == join_with(rest.drop_last(), sep) + seq![sep]
                    + rest.last());
                assert(now.last() == rest.last().push(s.last()));
                assert(join_with(now, sep) == join_with(rest.drop_last(), sep) + seq![sep]
                    + now.last());
                assert(s =~= s.drop_last().push(s.last()));
                assert(join_with(now, sep) =~= s);
            }
        }
    }
}

// ---------------------------------------------------------------------------
// Executable operations
// ---------------------------------------------------------------------------

/// The characters of `s`, in order.
pub fn chars_of(s: &str) -> (out: Vec<char>)
    ensures
        out@ == s@,
{
    let mut out: Vec<char> = Vec::new();
    for c in it: s.chars()
        invariant
            out@ == it.seq().take(it.index() as int),
    {
        out.push(c);
    }
    out
}

/// Appends the characters `cs[from..to]` to `s`.
pub fn push_range(s: &mut String, cs: &Vec<char>, from: usize, to: usize)
    requires
        from <= to <= cs.len(),
    ensures
        final(s)@ == old(s)@ + cs@.subrange(from as int, to as int),
{
    let mut i = from;
    while i < to
        invariant
            from <= i <= to <= cs.len(),
            s@ == old(s)@ + cs@.subrange(from as int, i as int),
        decreases to - i,
    {
        s.push(cs[i]);
        i = i + 1;
        assert(cs@.subrange(from as int, i as int) =~= cs@.subrange(from as int, i - 1).push(
            cs@[i - 1],
        ));
    }
}

/// Appends all of `cs` to `s`.
pub fn push_all(s: &mut String, cs: &Vec<char>)
    ensures
        final(s)@ == old(s)@ + cs@,
{
    push_range(s, cs, 0, cs.len());
    assert(cs@.subrange(0, cs@.len() as int) =~= cs@);
}

/// Appends all of `t` to `s`.
pub fn push_str(s: &mut String, t: &str)
    ensures
        final(s)@ == old(s)@ + t@,
{
    let cs = chars_of(t);
    push_all(s, &cs);
}

/// A new string made of the characters `cs[from..to]`.
pub fn string_of_range(cs: &Vec<char>, from: usize, to: usize) -> (out: String)
    requires
        from <= to <= cs.len(),
    ensures
        out@ == cs@.subrange(from as int, to as int),
{
    let mut out = String::new();
    push_range(&mut out, cs, from, to);
    assert(Seq::<char>::empty() + cs@.subrange(from as int, to as int) =~= cs@.subrange(
        from as int,
        to as int,
    ));
    out
}

/// A new string made of all of `cs`.
pub fn string_of(cs: &Vec<char>) -> (out: String)
    ensures
        out@ == cs@,
{
    let out = string_of_range(cs, 0, cs.len());
    assert(cs@.subrange(0, cs@.len() as int) =~= cs@);
    out
}

/// The concatenation of `a` and `b`.
pub fn concat(a: &str, b: &str) -> (out: String)
    ensures
        out@ == a@ + b@,
{
    let mut out = String::new();
    push_str(&mut out, a);
    push_str(&mut out, b);
    assert(Seq::<char>::empty() + a@ =~= a@);
    out
}

/// A copy of `s`.
pub fn copy_str(s: &str) -> (out: String)
    ensures
        out@ == s@,
{
    let cs = chars_of(s);
    string_of(&cs)
}

/// The pieces of `cs` between the occurrences of `sep`.
pub fn split_chars(cs: &Vec<char>, sep: char) -> (parts: Vec<Vec<char>>)
    ensures
        char_views(parts@) == split(cs@, sep),
{
    let mut parts: Vec<Vec<char>> = Vec::new();
    let mut cur: Vec<char> = Vec::new();
    let mut i: usize = 0;
    while i < cs.len()
        invariant
            i <= cs.len(),
            char_views(parts@).push(cur@) == split(cs@.subrange(0, i as int), sep),
        decreases cs.len() - i,
    {
        let c = cs[i];
        let ghost before = char_views(parts@).push(cur@);
        proof {
            let t = cs@.subrange(0, i + 1);
            assert(t.drop_last() =~= cs@.subrange(0, i as int));
            assert(t.last() == c);
        }
        if c == sep {
            parts.push(cur);
            cur = Vec::new();
            assert(char_views(parts@).push(cur@) =~= before.push(Seq::<char>::empty()));
        } else {
            cur.push(c);
            assert(char_views(parts@).push(cur@) =~= before.update(
                before.len() - 1,
                before.last().push(c),
            ));
        }
        i = i + 1;
    }
    let ghost before = char_views(parts@).push(cur@);
    parts.push(cur);
    assert(char_views(parts@) =~= before);
    assert(cs@.subrange(0, cs.len() as int) =~= cs@);
    parts
}

/// The first whitespace-separated word of `cs`.
pub fn first_word_of(cs: &Vec<char>) -> (w: Vec<char>)
    ensures
        w@ == first_word(cs@),
{
    let n = cs.len();
    let mut i: usize = 0;
    while i < n && is_whitespace_char(cs[i])
        invariant
            i <= n == cs.len(),
            forall|k: int| 0 <= k < i ==> is_whitespace(#[trigger] cs@[k]),
        decreases n - i,
    {
        i = i + 1;
    }
    proof {
        lemma_trim_start_skip(cs@, i as int);
        let rest = cs@.subrange(i as int, n as int);
        if i < n {
            assert(rest[0] == cs@[i as int]);
        }
        assert(trim_start(rest) == rest);
    }
    let mut j: usize = i;
    while j < n && !is_whitespace_char(cs[j])
        invariant
            i <= j <= n == cs.len(),
            forall|k: int| i <= k < j ==> !is_whitespace(#[trigger] cs@[k]),
        decreases n - j,
    {
        j = j + 1;
    }
    proof {
        lemma_leading_word(cs@.subrange(i as int, n as int), j - i);
        assert(cs@.subrange(i as int, n as int).subrange(0, j - i) =~= cs@.subrange(
            i as int,
            j as int,
        ));
    }
    let mut w: Vec<char> = Vec::new();
    let mut k: usize = i;
    while k < j
        invariant
            i <= k <= j <= n == cs.len(),
            w@ == cs@.subrange(i as int, k as int),
        decreases j - k,
    {
        w.push(cs[k]);
        k = k + 1;
        assert(w@ =~= cs@.subrange(i as int, k as int));
    }
    w
}

/// Whether `v` ends with `q`.
pub fn has_suffix(v: &Vec<char>, q: &Vec<char>) -> (b: bool)
    ensures
        b == ends_with(v@, q@),
{
    if q.len() > v.len() {
        return false;
    }
    let start = v.len() - q.len();
    let mut k: usize = 0;
    while k < q.len()
        invariant
            start == v.len() - q.len(),
            k <= q.len(),
            forall|t: int| 0 <= t < k ==> v@[start + t] == q@[t],
        decreases q.len() - k,
    {
        if v[start + k] != q[k] {
            assert(v@.subrange(start as int, v.len() as int)[k as int] != q@[k as int]);
            return false;
        }
        k = k + 1;
    }
    assert(v@.subrange(start as int, v.len() as int) =~= q@);
    true
}

/// Whether `c` is whitespace, as `char::is_whitespace` decides.
pub fn is_whitespace_char(c: char) -> (b: bool)
    ensures
        b == is_whitespace(c),
{
    ('\u{9}' <= c && c <= '\u{d}') || c == ' ' || c == '\u{85}' || c == '\u{a0}' || c
        == '\u{1680}' || ('\u{2000}' <= c && c <= '\u{200a}') || c == '\u{2028}' || c
        == '\u{2029}' || c == '\u{202f}' || c == '\u{205f}' || c == '\u{3000}'
}

/// `s` without leading and trailing whitespace.
pub fn trimmed(s: &str) -> (out: String)
    ensures
        out@ == trim(s@),
{
    let cs = chars_of(s);
    let n = cs.len();
    let mut i: usize = 0;
    while i < n && is_whitespace_char(cs[i])
        invariant
            i <= n == cs.len(),
            forall|k: int| 0 <= k < i ==> is_whitespace(#[trigger] cs@[k]),
        decreases n - i,
    {
        i = i + 1;
    }
    let mut j: usize = n;
    while j > i && is_whitespace_char(cs[j - 1])
        invariant
            i <= j <= n == cs.len(),
            forall|k: int| j <= k < n ==> is_whitespace(#[trigger] cs@[k]),
        decreases j - i,
    {
        j = j - 1;
    }
    proof {
        lemma_trim_start_skip(cs@, i as int);
        let rest = cs@.subrange(i as int, n as int);
        if i < n {
            assert(rest[0] == cs@[i as int]);
        }
        assert(trim_start(rest) == rest);
        assert forall|k: int| j - i <= k < rest.len() implies is_whitespace(#[trigger] rest[k]) by {
            assert(rest[k] == cs@[k + i]);
        }
        lemma_trim_end_cut(rest, j - i);
        let mid = rest.subrange(0, j - i);
        assert(mid =~= cs@.subrange(i as int, j as int));
        if j > i {
            assert(mid.last() == cs@[j - 1]);
        }
        assert(trim_end(mid) == mid);
    }
    string_of_range(&cs, i, j)
}

/// ASCII lower case of one character.
pub fn lower_char_exec(c: char) -> (r: char)
    ensures
        r == lower_char(c),
{
    if 'A' <= c && c <= 'Z' {
        let b: u8 = c as u8;
        (b + 32) as char
    } else {
        c
    }
}

/// The characters of `s` in ASCII lower case.
pub fn lower_chars(s: &str) -> (out: Vec<char>)
    ensures
        out@ == lower(s@),
{
    let cs = chars_of(s);
    let mut out: Vec<char> = Vec::new();
    let mut i: usize = 0;
    while i < cs.len()
        invariant
            i <= cs.len(),
            cs@ == s@,
            out@ == lower(cs@.subrange(0, i as int)),
        decreases cs.len() - i,
    {
        let c = lower_char_exec(cs[i]);
        out.push(c);
        i = i + 1;
        assert(lower(cs@.subrange(0, i as int)) =~= lower(cs@.subrange(0, i - 1)).push(
            lower_char(cs@[i - 1]),
        ));
    }
    assert(cs@.subrange(0, cs@.len() as int) =~= cs@);
    out
}

/// `s` in ASCII lower case, as `str::to_ascii_lowercase` gives it.
pub fn to_ascii_lowercase(s: &str) -> (out: String)
    ensures
        out@ == lower(s@),
{
    let cs = lower_chars(s);
    string_of(&cs)
}

/// The decimal digit character of `d`.
pub fn digit_char(d: u64) -> (r: char)
    requires
        d < 10,
    ensures
        r == digit(d as nat),
{
    let b: u8 = d as u8;
    (b + 48) as char
}

/// The decimal rendering of `n`, as `u64`'s `Display` writes it.
pub fn decimal_string(n: u64) -> (out: String)
    ensures
        out@ == decimal(n as nat),
{
    // Collect the digits from the least significant one.
    let mut rev: Vec<char> = Vec::new();
    let mut m: u64 = n;
    while m >= 10
        invariant
            decimal(n as nat) == decimal(m as nat) + rev@.reverse(),
        decreases m,
    {
        let d = m % 10;
        let ghost before = rev@;
        rev.push(digit_char(d));
        proof {
            assert(rev@.reverse() =~= seq![digit((m % 10) as nat)] + before.reverse());
            assert(decimal(m as nat) == decimal((m / 10) as nat).push(digit((m % 10) as nat)));
            assert(decimal((m / 10) as nat).push(digit((m % 10) as nat)) + before.reverse()
                =~= decimal((m / 10) as nat) + rev@.reverse());
        }
        m = m / 10;
    }
    let ghost before = rev@;
    rev.push(digit_char(m));
    assert(rev@.reverse() =~= seq![digit(m as nat)] + before.reverse());
    let mut out = String::new();
    let mut k: usize = rev.len();
    while k > 0
        invariant
            k <= rev.len(),
            out@ == rev@.subrange(k as int, rev.len() as int).reverse(),
        decreases k,
    {
        k = k - 1;
        out.push(rev[k]);
        assert(rev@.subrange(k as int, rev.len() as int).reverse() =~= rev@.subrange(
            k + 1,
            rev.len() as int,
        ).reverse().push(rev@[k as int]));
    }
    assert(rev@.subrange(0, rev.len() as int) =~= rev@);
    out
}

/// The position of the first occurrence of `needle` in `hay` at or after `from`.
pub fn find_from(hay: &Vec<char>, needle: &Vec<char>, from: usize) -> (r: Option<usize>)
    requires
        from <= hay.len(),
    ensures
        match r {
            Some(i) => from <= i && occurs_at(hay@, needle@, i as int) && forall|k: int|
                from <= k < i ==> !occurs_at(hay@, needle@, k),
            None => forall|k: int| from <= k ==> !occurs_at(hay@, needle@, k),
        },
{
    if needle.len() > hay.len() {
        return None;
    }
    let last = hay.len() - needle.len();
    let mut i = from;
    while i <= last
        invariant
            from <= i,
            last == hay.len() - needle.len(),
            forall|k: int| from <= k < i ==> !occurs_at(hay@, needle@, k),
        decreases last + 1 - i,
    {
        let mut j: usize = 0;
        let mut same = true;
        while j < needle.len()
            invariant
                i <= last,
                last == hay.len() - needle.len(),
                j <= needle.len(),
                same ==> forall|t: int| 0 <= t < j ==> hay@[i + t] == needle@[t],
                !same ==> !occurs_at(hay@, needle@, i as int),
            decreases needle.len() - j,
        {
            if same && hay[i + j] != needle[j] {
                same = false;
                assert(hay@.subrange(i as int, i + needle.len())[j as int] != needle@[j as int]);
            }
            j = j + 1;
        }
        if same {
            assert(hay@.subrange(i as int, i + needle.len()) =~= needle@);
            return Some(i);
        }
        if i == last {
            return None;
        }
        i = i + 1;
    }
    None
}

} // verus!
