//! What the collectors compute from the raw container and journal output, and the
//! batching of records before they are sent.

use vstd::prelude::*;
use crate::json::{json_parse, json_string_member, parse_json_value, string_member};
use crate::metrics::{now, Timestamp};
use crate::text::{chars_of, string_of_range, trim, trimmed};

verus! {

/// A Docker log line: the time it was read and the line without surrounding whitespace.
pub fn parse_docker_line(raw: &str) -> (r: (Timestamp, String))
    ensures
        r.1@ == trim(raw@),
        r.0.secs >= 0,
        r.0.nanos < 1_000_000_000,
{
    (now(), trimmed(raw))
}

/// The message of a journal entry: its `MESSAGE` member when that is a string, else empty.
pub open spec fn journal_message(v: serde_json::Value) -> Seq<char> {
    match json_string_member(v, "MESSAGE"@) {
        Some(s) => s,
        None => Seq::empty(),
    }
}

/// A line of `journalctl -o json` as its message and its whole JSON value; `None` when
/// the line is not JSON.
pub fn journal_entry(line: &str) -> (r: Option<(String, serde_json::Value)>)
    ensures
        (r is None) <==> json_parse(line@) is None,
        r matches Some((m, v)) ==> Some(v) == json_parse(line@) && m@ == journal_message(v),
{
    match parse_json_value(line) {
        Some(v) => {
            let m = match string_member(&v, "MESSAGE") {
                Some(s) => s,
                None => String::new(),
            };
            Some((m, v))
        },
        None => None,
    }
}

/// The number of bytes that UTF-8 uses for `c`.
pub open spec fn utf8_width(c: char) -> nat {
    if '\u{80}' > c {
        1
    } else if '\u{800}' > c {
        2
    } else if '\u{10000}' > c {
        3
    } else {
        4
    }
}

/// The number of bytes of the UTF-8 encoding of `s`.
pub open spec fn utf8_len(s: Seq<char>) -> nat
    decreases s.len(),
{
    if s.len() == 0 {
        0
    } else {
        utf8_len(s.drop_last()) + utf8_width(s.last())
    }
}

/// `s` without its leading `/` characters.
pub open spec fn strip_slashes(s: Seq<char>) -> Seq<char>
    decreases s.len(),
{
    if s.len() > 0 && s[0] == '/' {
        strip_slashes(s.drop_first())
    } else {
        s
    }
}

/// The id of a container cut to its first 12 bytes ends on a character boundary.
pub open spec fn short_id_fits(id: Seq<char>) -> bool {
    exists|k: int| 0 <= k <= id.len() && utf8_len(id.take(k)) == if utf8_len(id) < 12 {
        utf8_len(id)
    } else {
        12
    }
}

/// The first 12 bytes of a container id, as characters.
pub open spec fn short_id(id: Seq<char>) -> Seq<char> {
    let n: nat = if utf8_len(id) < 12 { utf8_len(id) } else { 12 };
    let k = choose|k: int| 0 <= k <= id.len() && utf8_len(id.take(k)) == n;
    id.take(k)
}

proof fn lemma_utf8_len_take_step(s: Seq<char>, k: int)
    requires
        0 <= k < s.len(),
    ensures
        utf8_len(s.take(k + 1)) == utf8_len(s.take(k)) + utf8_width(s[k]),
{
    assert(s.take(k + 1).drop_last() =~= s.take(k));
}

proof fn lemma_utf8_len_strict(s: Seq<char>, a: int, b: int)
    requires
        0 <= a < b <= s.len(),
    ensures
        utf8_len(s.take(a)) < utf8_len(s.take(b)),
    decreases b - a,
{
    lemma_utf8_len_take_step(s, b - 1);
    if a < b - 1 {
        lemma_utf8_len_strict(s, a, b - 1);
    }
}

/// A container's display name: its first listed name, else its id cut to 12 bytes, in
/// either case without leading `/`.
pub fn container_name(names: Option<&Vec<String>>, id: &str) -> (name: String)
    requires
        match names {
            Some(v) => v.len() > 0 || short_id_fits(id@),
            None => short_id_fits(id@),
        },
    ensures
        name@ == strip_slashes(
            match names {
                Some(v) => if v.len() > 0 {
                    v@[0]@
                } else {
                    short_id(id@)
                },
                None => short_id(id@),
            },
        ),
{
    let source: Vec<char> = match names {
        Some(v) if v.len() > 0 => chars_of(v[0].as_str()),
        _ => {
            let cs = chars_of(id);
            // Count characters until 12 bytes are reached or the id ends.
            let mut k: usize = 0;
            let mut bytes: usize = 0;
            while k < cs.len() && bytes < 12
                invariant
                    k <= cs.len(),
                    cs@ == id@,
                    bytes == utf8_len(cs@.take(k as int)),
                    bytes < 12 + 4,
                    k > 0 ==> utf8_len(cs@.take(k - 1)) < 12,
                decreases cs.len() - k,
            {
                let c = cs[k];
                let w: usize = if '\u{80}' > c {
                    1
                } else if '\u{800}' > c {
                    2
                } else if '\u{10000}' > c {
                    3
                } else {
                    4
                };
                proof {
                    lemma_utf8_len_take_step(cs@, k as int);
                }
                bytes = bytes + w;
                k = k + 1;
            }
            proof {
                assert(cs@.take(cs@.len() as int) =~= cs@);
                let n: nat = if utf8_len(id@) < 12 { utf8_len(id@) } else { 12 };
                assert(short_id_fits(id@));
                let j = choose|j: int| 0 <= j <= id@.len() && utf8_len(id@.take(j)) == n;
                if k < cs.len() {
                    lemma_utf8_len_strict(id@, k as int, id@.len() as int);
                }
                if j < k {
                    if j < k - 1 {
                        lemma_utf8_len_strict(id@, j, k - 1);
                    }
                    if k == cs.len() && bytes < 12 {
                        lemma_utf8_len_strict(id@, j, k as int);
                    }
                }
                if k < j {
                    lemma_utf8_len_strict(id@, k as int, j);
                }
                assert(j == k);
            }
            let mut out: Vec<char> = Vec::new();
            let mut t: usize = 0;
            while t < k
                invariant
                    t <= k <= cs.len(),
                    out@ == cs@.take(t as int),
                decreases k - t,
            {
                out.push(cs[t]);
                t = t + 1;
                assert(out@ =~= cs@.take(t as int));
            }
            out
        },
    };
    // Drop the leading slashes.
    assert(source@.subrange(0, source.len() as int) =~= source@);
    let mut s: usize = 0;
    while s < source.len() && source[s] == '/'
        invariant
            s <= source.len(),
            strip_slashes(source@) == strip_slashes(source@.subrange(s as int, source.len() as int)),
        decreases source.len() - s,
    {
        proof {
            let rest = source@.subrange(s as int, source.len() as int);
            assert(rest.drop_first() =~= source@.subrange(s + 1, source.len() as int));
        }
        s = s + 1;
    }
    proof {
        let rest = source@.subrange(s as int, source.len() as int);
        if s < source.len() {
            assert(rest[0] == source@[s as int]);
        }
        assert(source@.subrange(0, source.len() as int) =~= source@);
    }
    string_of_range(&source, s, source.len())
}

/// Records waiting to be sent; a full batch of [`BATCH_SIZE`] goes out at once.
pub struct LogBatch<T> {
    items: Vec<T>,
}

/// The number of records in a full batch.
pub const BATCH_SIZE: usize = 200;

impl<T> View for LogBatch<T> {
    type V = Seq<T>;

    closed spec fn view(&self) -> Seq<T> {
        self.items@
    }
}

impl<T> LogBatch<T> {
    /// A batch is never held full: it is handed out as soon as it reaches the size.
    pub closed spec fn wf(&self) -> bool {
        self.items@.len() < 200
    }

    /// An empty batch.
    pub fn new() -> (b: Self)
        ensures
            b@ == Seq::<T>::empty(),
            b.wf(),
    {
        LogBatch { items: Vec::new() }
    }

    /// The number of records waiting.
    pub fn len(&self) -> (n: usize)
        ensures
            n == self@.len(),
    {
        self.items.len()
    }

    /// Adds a record; when that makes the batch full, hands out all its records and
    /// starts an empty batch.
    pub fn push(&mut self, item: T) -> (full: Option<Vec<T>>)
        requires
            old(self).wf(),
        ensures
            final(self).wf(),
            match full {
                Some(v) => {
                    &&& v@ == old(self)@.push(item)
                    &&& v@.len() == 200
                    &&& final(self)@ == Seq::<T>::empty()
                },
                None => final(self)@ == old(self)@.push(item),
            },
    {
        self.items.push(item);
        if self.items.len() >= BATCH_SIZE {
            let mut full: Vec<T> = Vec::new();
            std::mem::swap(&mut full, &mut self.items);
            Some(full)
        } else {
            None
        }
    }

    /// Hands out the records waiting, leaving the batch empty.
    pub fn take(&mut self) -> (v: Vec<T>)
        ensures
            v@ == old(self)@,
            final(self)@ == Seq::<T>::empty(),
            final(self).wf(),
    {
        let mut v: Vec<T> = Vec::new();
        std::mem::swap(&mut v, &mut self.items);
        v
    }
}

/// A batch is sent only when it holds records.
pub fn should_send<T>(batch: &[T]) -> (b: bool)
    ensures
        b == (batch@.len() > 0),
{
    batch.len() > 0
}

} // verus!
