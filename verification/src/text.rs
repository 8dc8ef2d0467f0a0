//! Character-level helpers for header names and header values.
//!
//! Header names and the tokens of a header value are compared without regard to
//! ASCII case, and the items of a comma-separated value are trimmed of white
//! space before they are compared. The functions here do that on sequences of
//! characters; each has a spec function that says what it computes.

use vstd::prelude::*;
use vstd::utf8::{encode_utf8, encode_utf8_decode_utf8};

verus! {

/// Whether `c` has the Unicode property `White_Space`: the characters that
/// trimming removes.
pub open spec fn is_whitespace(c: char) -> bool {
    let u = c as u32;
    ||| 0x09 <= u <= 0x0D
    ||| u == 0x20
    ||| u == 0x85
    ||| u == 0xA0
    ||| u == 0x1680
    ||| 0x2000 <= u <= 0x200A
    ||| u == 0x2028
    ||| u == 0x2029
    ||| u == 0x202F
    ||| u == 0x205F
    ||| u == 0x3000
}

/// The code point of `c`, with the upper-case ASCII letters mapped to their
/// lower-case counterparts.
pub open spec fn fold_ascii(c: char) -> u32 {
    let u = c as u32;
    if 0x41 <= u <= 0x5A {
        (u + 0x20) as u32
    } else {
        u
    }
}

/// Equality of two character sequences without regard to ASCII case.
pub open spec fn eq_ignore_ascii_case(a: Seq<char>, b: Seq<char>) -> bool {
    &&& a.len() == b.len()
    &&& forall|i: int| 0 <= i < a.len() ==> fold_ascii(#[trigger] a[i]) == fold_ascii(b[i])
}

/// `s` without its leading white space.
pub open spec fn trim_start(s: Seq<char>) -> Seq<char>
    decreases s.len(),
{
    if s.len() > 0 && is_whitespace(s[0]) {
        trim_start(s.drop_first())
    } else {
        s
    }
}

/// `s` without its trailing white space.
pub open spec fn trim_end(s: Seq<char>) -> Seq<char>
    decreases s.len(),
{
    if s.len() > 0 && is_whitespace(s.last()) {
        trim_end(s.drop_last())
    } else {
        s
    }
}

/// `s` without its leading and trailing white space.
pub open spec fn trim(s: Seq<char>) -> Seq<char> {
    trim_end(trim_start(s))
}

/// Whether `value[from..to]` is one of the items that the commas of `value`
/// separate: it starts at the beginning or behind a comma, ends at the end or
/// before a comma, and holds no comma.
pub open spec fn is_item(value: Seq<char>, from: int, to: int) -> bool {
    &&& 0 <= from <= to <= value.len()
    &&& (from == 0 || value[from - 1] == ',')
    &&& (to == value.len() || value[to] == ',')
    &&& forall|k: int| from <= k < to ==> value[k] != ','
}

/// Whether one of the comma-separated items of `value`, trimmed, equals `token`
/// without regard to ASCII case.
pub open spec fn lists_token(value: Seq<char>, token: Seq<char>) -> bool {
    exists|from: int, to: int|
        #[trigger] is_item(value, from, to) && eq_ignore_ascii_case(
            trim(value.subrange(from, to)),
            token,
        )
}

/// The characters of `s`, in order.
pub fn chars_of(s: &str) -> (v: Vec<char>)
    ensures
        v@ == s@,
{
    let mut v: Vec<char> = Vec::new();
    for c in it: s.chars()
        invariant
            it.seq() == s@,
            v@ == it.seq().take(it.index()),
    {
        v.push(c);
    }
    v
}

/// Whether two strings hold the same characters.
pub fn str_eq(a: &str, b: &str) -> (r: bool)
    ensures
        r == (a@ == b@),
{
    let x = a.as_bytes();
    let y = b.as_bytes();
    proof {
        encode_utf8_decode_utf8(a@);
        encode_utf8_decode_utf8(b@);
    }
    if x.len() != y.len() {
        return false;
    }
    let mut i: usize = 0;
    while i < x.len()
        invariant
            i <= x.len(),
            x.len() == y.len(),
            x@ == encode_utf8(a@),
            y@ == encode_utf8(b@),
            forall|k: int| 0 <= k < i ==> x@[k] == y@[k],
        decreases x.len() - i,
    {
        if x[i] != y[i] {
            return false;
        }
        i += 1;
    }
    assert(x@ =~= y@);
    true
}

/// Whether `c` is white space.
pub fn char_is_whitespace(c: char) -> (r: bool)
    ensures
        r == is_whitespace(c),
{
    let u: u32 = c as u32;
    (0x09 <= u && u <= 0x0D) || u == 0x20 || u == 0x85 || u == 0xA0 || u == 0x1680 || (0x2000 <= u
        && u <= 0x200A) || u == 0x2028 || u == 0x2029 || u == 0x202F || u == 0x205F || u == 0x3000
}

/// The code point of `c` with ASCII case folded away.
pub fn fold_ascii_char(c: char) -> (r: u32)
    ensures
        r == fold_ascii(c),
{
    let u: u32 = c as u32;
    if 0x41 <= u && u <= 0x5A {
        u + 0x20
    } else {
        u
    }
}

/// Whether `v[from..to]` equals `token` without regard to ASCII case.
pub fn range_eq_ignore_ascii_case(v: &Vec<char>, from: usize, to: usize, token: &Vec<char>) -> (r:
    bool)
    requires
        from <= to <= v.len(),
    ensures
        r == eq_ignore_ascii_case(v@.subrange(from as int, to as int), token@),
{
    let ghost a = v@.subrange(from as int, to as int);
    if to - from != token.len() {
        return false;
    }
    let mut i: usize = 0;
    while i < token.len()
        invariant
            from <= to <= v.len(),
            to - from == token.len(),
            i <= token.len(),
            a == v@.subrange(from as int, to as int),
            forall|k: int| 0 <= k < i ==> fold_ascii(#[trigger] a[k]) == fold_ascii(token@[k]),
        decreases token.len() - i,
    {
        if fold_ascii_char(v[from + i]) != fold_ascii_char(token[i]) {
            assert(a[i as int] == v@[from + i]);
            return false;
        }
        i += 1;
    }
    true
}

/// Whether two strings are equal without regard to ASCII case.
pub fn str_eq_ignore_ascii_case(a: &str, b: &str) -> (r: bool)
    ensures
        r == eq_ignore_ascii_case(a@, b@),
{
    let x = chars_of(a);
    let y = chars_of(b);
    assert(x@.subrange(0, x@.len() as int) =~= x@);
    range_eq_ignore_ascii_case(&x, 0, x.len(), &y)
}

/// The bounds of `v[from..to]` without its leading and trailing white space.
pub fn trim_range(v: &Vec<char>, from: usize, to: usize) -> (r: (usize, usize))
    requires
        from <= to <= v.len(),
    ensures
        from <= r.0 <= r.1 <= to,
        v@.subrange(r.0 as int, r.1 as int) == trim(v@.subrange(from as int, to as int)),
{
    let mut a: usize = from;
    while a < to && char_is_whitespace(v[a])
        invariant
            from <= a <= to <= v.len(),
            trim_start(v@.subrange(from as int, to as int)) == trim_start(
                v@.subrange(a as int, to as int),
            ),
        decreases to - a,
    {
        assert(v@.subrange(a as int, to as int).drop_first() =~= v@.subrange(a + 1, to as int));
        a += 1;
    }
    let mut b: usize = to;
    while b > a && char_is_whitespace(v[b - 1])
        invariant
            a <= b <= to <= v.len(),
            trim_end(v@.subrange(a as int, to as int)) == trim_end(v@.subrange(a as int, b as int)),
        decreases b - a,
    {
        assert(v@.subrange(a as int, b as int).drop_last() =~= v@.subrange(a as int, b - 1));
        b -= 1;
    }
    (a, b)
}

/// Whether one of the comma-separated items of `value`, trimmed, equals `token`
/// without regard to ASCII case.
pub fn value_lists_token(value: &str, token: &str) -> (r: bool)
    ensures
        r == lists_token(value@, token@),
{
    let v = chars_of(value);
    let t = chars_of(token);
    let n = v.len();
    let mut start: usize = 0;
    let mut i: usize = 0;
    while i < n
        invariant
            n == v.len(),
            v@ == value@,
            t@ == token@,
            start <= i <= n,
            start == 0 || v@[start - 1] == ',',
            forall|k: int| start <= k < i ==> v@[k] != ',',
            forall|f: int, e: int|
                #[trigger] is_item(v@, f, e) && e < start ==> !eq_ignore_ascii_case(
                    trim(v@.subrange(f, e)),
                    t@,
                ),
        decreases n - i,
    {
        if v[i] == ',' {
            assert(is_item(v@, start as int, i as int));
            let (a, b) = trim_range(&v, start, i);
            if range_eq_ignore_ascii_case(&v, a, b, &t) {
                return true;
            }
            assert forall|f: int, e: int| #[trigger] is_item(v@, f, e) && e < i + 1 implies
                !eq_ignore_ascii_case(trim(v@.subrange(f, e)), t@) by {}
            start = i + 1;
        }
        i += 1;
    }
    assert(is_item(v@, start as int, n as int));
    let (a, b) = trim_range(&v, start, n);
    let found = range_eq_ignore_ascii_case(&v, a, b, &t);
    assert forall|f: int, e: int| #[trigger] is_item(v@, f, e) && !found implies
        !eq_ignore_ascii_case(trim(v@.subrange(f, e)), t@) by {
        if e >= start {
        }
    }
    found
}

} // verus!
