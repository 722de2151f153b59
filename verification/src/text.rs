//! Reading a node number out of configuration text: surrounding white space
//! is ignored, and what remains must be a decimal `u16`.

use vstd::prelude::*;
use vstd::string::StrSliceExecFns;

verus! {

/// Unicode `White_Space` characters.
pub open spec fn is_white_space(c: char) -> bool {
    let u = c as u32;
    (0x9 <= u <= 0xd) || u == 0x20 || u == 0x85 || u == 0xa0 || u == 0x1680 || (0x2000 <= u
        <= 0x200a) || u == 0x2028 || u == 0x2029 || u == 0x202f || u == 0x205f || u == 0x3000
}

/// The text without its leading white space.
pub open spec fn trim_start(s: Seq<char>) -> Seq<char>
    decreases s.len(),
{
    if s.len() > 0 && is_white_space(s[0]) {
        trim_start(s.drop_first())
    } else {
        s
    }
}

/// The text without its trailing white space.
pub open spec fn trim_end(s: Seq<char>) -> Seq<char>
    decreases s.len(),
{
    if s.len() > 0 && is_white_space(s.last()) {
        trim_end(s.drop_last())
    } else {
        s
    }
}

/// The text without leading and trailing white space.
pub open spec fn trim(s: Seq<char>) -> Seq<char> {
    trim_end(trim_start(s))
}

pub open spec fn is_ascii_digit(c: char) -> bool {
    0x30 <= (c as u32) <= 0x39
}

pub open spec fn all_ascii_digits(s: Seq<char>) -> bool {
    forall|i: int| 0 <= i < s.len() ==> is_ascii_digit(#[trigger] s[i])
}

/// The number that a string of decimal digits denotes.
pub open spec fn decimal_value(s: Seq<char>) -> nat
    decreases s.len(),
{
    if s.len() == 0 {
        0
    } else {
        decimal_value(s.drop_last()) * 10 + ((s.last() as u32) - 0x30) as nat
    }
}

/// The digits of a number text: an optional leading `+` is dropped.
pub open spec fn unsigned_digits(s: Seq<char>) -> Seq<char> {
    if s.len() > 0 && s[0] == '+' {
        s.drop_first()
    } else {
        s
    }
}

/// The `u16` that a text denotes: an optional `+`, then one or more ASCII
/// decimal digits whose value is at most `u16::MAX`.
pub open spec fn parse_u16(s: Seq<char>) -> Option<u16> {
    let d = unsigned_digits(s);
    if d.len() > 0 && all_ascii_digits(d) && decimal_value(d) <= u16::MAX {
        Some(decimal_value(d) as u16)
    } else {
        None
    }
}

fn char_is_white_space(c: char) -> (r: bool)
    ensures
        r == is_white_space(c),
{
    let u = c as u32;
    (0x9 <= u && u <= 0xd) || u == 0x20 || u == 0x85 || u == 0xa0 || u == 0x1680 || (0x2000 <= u
        && u <= 0x200a) || u == 0x2028 || u == 0x2029 || u == 0x202f || u == 0x205f || u == 0x3000
}

proof fn lemma_trim_start(s: Seq<char>, k: int)
    requires
        0 <= k <= s.len(),
        forall|i: int| 0 <= i < k ==> is_white_space(#[trigger] s[i]),
        k == s.len() || !is_white_space(s[k]),
    ensures
        trim_start(s) == s.subrange(k, s.len() as int),
    decreases k,
{
    if k == 0 {
        assert(s.subrange(0, s.len() as int) =~= s);
    } else {
        let t = s.drop_first();
        assert forall|i: int| 0 <= i < k - 1 implies is_white_space(#[trigger] t[i]) by {
            assert(t[i] == s[i + 1]);
        }
        if k - 1 < t.len() {
            assert(t[k - 1] == s[k]);
        }
        lemma_trim_start(t, k - 1);
        assert(t.subrange(k - 1, t.len() as int) =~= s.subrange(k, s.len() as int));
    }
}

proof fn lemma_trim_end(t: Seq<char>, j: int)
    requires
        0 <= j <= t.len(),
        forall|i: int| j <= i < t.len() ==> is_white_space(#[trigger] t[i]),
        j == 0 || !is_white_space(t[j - 1]),
    ensures
        trim_end(t) == t.subrange(0, j),
    decreases t.len() - j,
{
    if j == t.len() {
        assert(t.subrange(0, j) =~= t);
    } else {
        let u = t.drop_last();
        assert(is_white_space(t.last()));
        assert forall|i: int| j <= i < u.len() implies is_white_space(#[trigger] u[i]) by {
            assert(u[i] == t[i]);
        }
        if j > 0 {
            assert(u[j - 1] == t[j - 1]);
        }
        lemma_trim_end(u, j);
        assert(u.subrange(0, j) =~= t.subrange(0, j));
    }
}

/// Bounds of the text without its surrounding white space.
fn trim_bounds(s: &str) -> (r: (usize, usize))
    ensures
        r.0 <= r.1 <= s@.len(),
        s@.subrange(r.0 as int, r.1 as int) == trim(s@),
{
    let n = s.unicode_len();
    let mut start: usize = 0;
    while start < n && char_is_white_space(s.get_char(start))
        invariant
            n == s@.len(),
            start <= n,
            forall|i: int| 0 <= i < start ==> is_white_space(#[trigger] s@[i]),
        decreases n - start,
    {
        start = start + 1;
    }
    let mut end: usize = n;
    while end > start && char_is_white_space(s.get_char(end - 1))
        invariant
            n == s@.len(),
            start <= end <= n,
            forall|i: int| end <= i < n ==> is_white_space(#[trigger] s@[i]),
        decreases end - start,
    {
        end = end - 1;
    }
    proof {
        lemma_trim_start(s@, start as int);
        let t = s@.subrange(start as int, n as int);
        assert forall|i: int| end - start <= i < t.len() implies is_white_space(#[trigger] t[i]) by {
            assert(t[i] == s@[start + i]);
        }
        if end > start {
            assert(t[end - start - 1] == s@[end - 1]);
        }
        lemma_trim_end(t, end - start);
        assert(t.subrange(0, end - start) =~= s@.subrange(start as int, end as int));
    }
    (start, end)
}

proof fn lemma_decimal_value_grows(d: Seq<char>, k: int)
    requires
        0 <= k <= d.len(),
        all_ascii_digits(d),
    ensures
        decimal_value(d.take(k)) <= decimal_value(d),
    decreases d.len() - k,
{
    if k < d.len() {
        let e = d.drop_last();
        assert(e.take(k) =~= d.take(k));
        assert forall|i: int| 0 <= i < e.len() implies is_ascii_digit(#[trigger] e[i]) by {
            assert(e[i] == d[i]);
        }
        lemma_decimal_value_grows(e, k);
    } else {
        assert(d.take(k) =~= d);
    }
}

/// Reads a `u16` out of `s`, ignoring surrounding white space.
pub fn parse_trimmed_u16(s: &str) -> (r: Option<u16>)
    ensures
        r == parse_u16(trim(s@)),
{
    let (start, end) = trim_bounds(s);
    let ghost t = trim(s@);
    let mut first = start;
    if first < end && s.get_char(first) == '+' {
        first = first + 1;
    }
    let ghost d = s@.subrange(first as int, end as int);
    assert(d =~= unsigned_digits(t));
    if first == end {
        return None;
    }
    let mut value: u32 = 0;
    let mut i = first;
    while i < end
        invariant
            start <= first <= i <= end <= s@.len(),
            d == s@.subrange(first as int, end as int),
            d == unsigned_digits(trim(s@)),
            value == decimal_value(d.take(i - first)),
            value <= u16::MAX,
            forall|j: int| 0 <= j < i - first ==> is_ascii_digit(#[trigger] d[j]),
        decreases end - i,
    {
        let c = s.get_char(i);
        assert(c == d[i - first]);
        let code = c as u32;
        if code < 0x30 || code > 0x39 {
            assert(!is_ascii_digit(d[i - first]));
            assert(!all_ascii_digits(d));
            return None;
        }
        let next = value * 10 + (code - 0x30);
        proof {
            let p = d.take(i - first + 1);
            assert(p.drop_last() =~= d.take(i - first));
            assert(p.last() == c);
        }
        if next > 0xffff {
            proof {
                if all_ascii_digits(d) {
                    lemma_decimal_value_grows(d, i - first + 1);
                }
            }
            return None;
        }
        value = next;
        i = i + 1;
    }
    assert(d.take(end - first) =~= d);
    Some(value as u16)
}

} // verus!
