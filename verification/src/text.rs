//! Character-level helpers: whitespace, trimming, UTF-8 widths and ASCII case.

use vstd::prelude::*;
use vstd::utf8::encode_scalar;
use vstd::utf8::encode_utf8;

verus! {

/// Whether `c` carries the Unicode `White_Space` property.
pub open spec fn is_whitespace(c: char) -> bool {
    let v = c as u32;
    ||| 0x09 <= v <= 0x0D
    ||| v == 0x20
    ||| v == 0x85
    ||| v == 0xA0
    ||| v == 0x1680
    ||| 0x2000 <= v <= 0x200A
    ||| v == 0x2028
    ||| v == 0x2029
    ||| v == 0x202F
    ||| v == 0x205F
    ||| v == 0x3000
}

/// `s` without its leading whitespace.
pub open spec fn trim_start(s: Seq<char>) -> Seq<char>
    decreases s.len(),
{
    if s.len() > 0 && is_whitespace(s.first()) {
        trim_start(s.drop_first())
    } else {
        s
    }
}

/// `s` without its trailing whitespace.
pub open spec fn trim_end(s: Seq<char>) -> Seq<char>
    decreases s.len(),
{
    if s.len() > 0 && is_whitespace(s.last()) {
        trim_end(s.drop_last())
    } else {
        s
    }
}

/// `s` without leading and trailing whitespace.
pub open spec fn trim(s: Seq<char>) -> Seq<char> {
    trim_end(trim_start(s))
}

/// Number of bytes that `c` takes in UTF-8.
pub open spec fn utf8_width(c: char) -> nat {
    encode_scalar(c as u32).len()
}

/// Number of bytes that `s` takes in UTF-8.
pub open spec fn utf8_len(s: Seq<char>) -> nat {
    encode_utf8(s).len()
}

/// `c` with an ASCII upper-case letter replaced by its lower-case form.
pub open spec fn ascii_lower(c: char) -> char {
    if 'A' <= c <= 'Z' {
        ((c as u32) + 32) as char
    } else {
        c
    }
}

/// Whether `a` and `b` are equal up to the case of ASCII letters.
pub open spec fn eq_ignore_ascii_case(a: Seq<char>, b: Seq<char>) -> bool {
    &&& a.len() == b.len()
    &&& forall|i: int| 0 <= i < a.len() ==> ascii_lower(#[trigger] a[i]) == ascii_lower(b[i])
}

/// The index at which `c` first occurs in `s`, or the length of `s` where it
/// does not occur.
pub open spec fn first_index_of(s: Seq<char>, c: char) -> int
    decreases s.len(),
{
    if s.len() == 0 || s.first() == c {
        0
    } else {
        1 + first_index_of(s.drop_first(), c)
    }
}

/// `first_index_of` is the one index before which `c` does not occur and at
/// which, inside `s`, it does.
pub proof fn lemma_first_index_of(s: Seq<char>, c: char, k: int)
    requires
        0 <= k <= s.len(),
        forall|i: int| 0 <= i < k ==> #[trigger] s[i] != c,
        k < s.len() ==> s[k] == c,
    ensures
        first_index_of(s, c) == k,
    decreases s.len(),
{
    if s.len() == 0 || s.first() == c {
        if k > 0 {
            assert(s[0] != c);
        }
    } else {
        let t = s.drop_first();
        assert forall|i: int| 0 <= i < k - 1 implies #[trigger] t[i] != c by {
            assert(t[i] == s[i + 1]);
        }
        lemma_first_index_of(t, c, k - 1);
    }
}

/// Skipping a prefix made of whitespace does not change what `trim_start` gives.
pub proof fn lemma_trim_start_skip(s: Seq<char>, k: int)
    requires
        0 <= k <= s.len(),
        forall|i: int| 0 <= i < k ==> is_whitespace(#[trigger] s[i]),
    ensures
        trim_start(s) == trim_start(s.skip(k)),
    decreases k,
{
    if k == 0 {
        assert(s.skip(0) =~= s);
    } else {
        assert(is_whitespace(s[0]));
        let t = s.drop_first();
        assert forall|i: int| 0 <= i < k - 1 implies is_whitespace(#[trigger] t[i]) by {
            assert(t[i] == s[i + 1]);
        }
        lemma_trim_start_skip(t, k - 1);
        assert(t.skip(k - 1) =~= s.skip(k));
    }
}

/// Dropping a suffix made of whitespace does not change what `trim_end` gives.
pub proof fn lemma_trim_end_take(s: Seq<char>, k: int)
    requires
        0 <= k <= s.len(),
        forall|i: int| k <= i < s.len() ==> is_whitespace(#[trigger] s[i]),
    ensures
        trim_end(s) == trim_end(s.take(k)),
    decreases s.len() - k,
{
    if k == s.len() {
        assert(s.take(k) =~= s);
    } else {
        assert(is_whitespace(s[s.len() - 1]));
        let t = s.drop_last();
        assert forall|i: int| k <= i < t.len() implies is_whitespace(#[trigger] t[i]) by {
            assert(t[i] == s[i]);
        }
        lemma_trim_end_take(t, k);
        assert(t.take(k) =~= s.take(k));
    }
}

/// The UTF-8 length of a sequence grows by the width of the character appended.
pub proof fn lemma_utf8_len_push(s: Seq<char>, c: char)
    ensures
        utf8_len(s.push(c)) == utf8_len(s) + utf8_width(c),
    decreases s.len(),
{
    if s.len() == 0 {
        assert(s.push(c).drop_first() =~= Seq::<char>::empty());
        assert(encode_utf8(Seq::<char>::empty()) =~= Seq::<u8>::empty());
        assert(encode_utf8(s.push(c)) =~= encode_scalar(c as u32) + encode_utf8(
            s.push(c).drop_first(),
        ));
        assert(encode_utf8(s) =~= Seq::<u8>::empty());
    } else {
        let t = s.drop_first();
        lemma_utf8_len_push(t, c);
        assert(s.push(c).drop_first() =~= t.push(c));
        assert(s.push(c)[0] == s[0]);
    }
}

/// Tells whether `c` is whitespace.
pub fn char_is_whitespace(c: char) -> (b: bool)
    ensures
        b == is_whitespace(c),
{
    let v: u32 = c as u32;
    (0x09 <= v && v <= 0x0D) || v == 0x20 || v == 0x85 || v == 0xA0 || v == 0x1680 || (0x2000 <= v
        && v <= 0x200A) || v == 0x2028 || v == 0x2029 || v == 0x202F || v == 0x205F || v == 0x3000
}

/// Number of bytes that `c` takes in UTF-8.
pub fn char_utf8_width(c: char) -> (w: usize)
    ensures
        w == utf8_width(c),
        1 <= w <= 4,
{
    let v: u32 = c as u32;
    proof {
        vstd::utf8::char_is_scalar(c);
    }
    if v <= 0x7F {
        1
    } else if v <= 0x7FF {
        2
    } else if v <= 0xFFFF {
        3
    } else {
        4
    }
}

/// Tells whether `a` and `b` are the same character up to ASCII case.
pub fn char_eq_ignore_ascii_case(a: char, b: char) -> (r: bool)
    ensures
        r == (ascii_lower(a) == ascii_lower(b)),
{
    let x: u32 = a as u32;
    let y: u32 = b as u32;
    let lx: u32 = if 0x41 <= x && x <= 0x5A {
        x + 32
    } else {
        x
    };
    let ly: u32 = if 0x41 <= y && y <= 0x5A {
        y + 32
    } else {
        y
    };
    proof {
        vstd::utf8::char_u32_cast(a, x);
        vstd::utf8::char_u32_cast(b, y);
        vstd::utf8::char_u32_cast(ascii_lower(a), ascii_lower(a) as u32);
        vstd::utf8::char_u32_cast(ascii_lower(b), ascii_lower(b) as u32);
    }
    lx == ly
}

/// Collects the characters of a string slice into a vector.
pub fn chars_of(s: &str) -> (out: Vec<char>)
    ensures
        out@ == s@,
{
    let mut out: Vec<char> = Vec::new();
    for c in it: s.chars()
        invariant
            it.seq() == s@,
            out@ == s@.take(it.index() as int),
    {
        out.push(c);
        assert(s@.take(it.index() + 1) == s@.take(it.index() as int).push(c));
    }
    assert(s@.take(s@.len() as int) == s@);
    out
}

/// Finds the bounds of `v` without its leading and trailing whitespace.
pub fn trim_bounds(v: &Vec<char>) -> (r: (usize, usize))
    ensures
        r.0 <= r.1 <= v.len(),
        v@.subrange(r.0 as int, r.1 as int) == trim(v@),
{
    let n = v.len();
    let mut a: usize = 0;
    while a < n && char_is_whitespace(v[a])
        invariant
            a <= n,
            n == v.len(),
            forall|i: int| 0 <= i < a ==> is_whitespace(#[trigger] v@[i]),
        decreases n - a,
    {
        a = a + 1;
    }
    let mut b: usize = n;
    while b > a && char_is_whitespace(v[b - 1])
        invariant
            a <= b <= n,
            n == v.len(),
            forall|i: int| b <= i < n ==> is_whitespace(#[trigger] v@[i]),
        decreases b - a,
    {
        b = b - 1;
    }
    proof {
        let s = v@;
        let t = s.skip(a as int);
        lemma_trim_start_skip(s, a as int);
        assert(trim_start(t) == t);
        let k = b - a;
        assert forall|i: int| k <= i < t.len() implies is_whitespace(#[trigger] t[i]) by {
            assert(t[i] == s[i + a]);
        }
        lemma_trim_end_take(t, k);
        let u = t.take(k);
        assert(u =~= s.subrange(a as int, b as int));
        assert(trim_end(u) == u) by {
            if u.len() > 0 {
                assert(u.last() == s[b - 1]);
            }
        }
    }
    (a, b)
}

/// Finds the first `c` in `v` from `from` up to `to`; gives `to` where there
/// is none.
pub fn find_char(v: &Vec<char>, from: usize, to: usize, c: char) -> (k: usize)
    requires
        from <= to <= v.len(),
    ensures
        from <= k <= to,
        k - from == first_index_of(v@.subrange(from as int, to as int), c),
        forall|i: int| from <= i < k ==> #[trigger] v@[i] != c,
        k < to ==> v@[k as int] == c,
{
    let mut k: usize = from;
    while k < to && v[k] != c
        invariant
            from <= k <= to <= v.len(),
            forall|i: int| from <= i < k ==> #[trigger] v@[i] != c,
        decreases to - k,
    {
        k = k + 1;
    }
    proof {
        let s = v@.subrange(from as int, to as int);
        assert forall|i: int| 0 <= i < k - from implies #[trigger] s[i] != c by {
            assert(s[i] == v@[i + from]);
        }
        lemma_first_index_of(s, c, k - from);
    }
    k
}

/// Tells whether the characters of `v` from `from` up to `to` take at least
/// `min` bytes in UTF-8.
pub fn utf8_len_at_least(v: &Vec<char>, from: usize, to: usize, min: usize) -> (r: bool)
    requires
        from <= to <= v.len(),
    ensures
        r == (utf8_len(v@.subrange(from as int, to as int)) >= min),
{
    if min == 0 {
        return true;
    }
    let mut total: usize = 0;
    let mut i: usize = from;
    assert(v@.subrange(from as int, from as int) =~= Seq::<char>::empty());
    assert(encode_utf8(Seq::<char>::empty()) =~= Seq::<u8>::empty());
    while i < to
        invariant
            from <= i <= to <= v.len(),
            total < min,
            total == utf8_len(v@.subrange(from as int, i as int)),
        decreases to - i,
    {
        let w = char_utf8_width(v[i]);
        proof {
            lemma_utf8_len_push(v@.subrange(from as int, i as int), v@[i as int]);
            assert(v@.subrange(from as int, i as int).push(v@[i as int]) =~= v@.subrange(
                from as int,
                i + 1,
            ));
        }
        if w >= min - total {
            proof {
                lemma_utf8_len_monotone(v@, from as int, i + 1, to as int);
            }
            return true;
        }
        total = total + w;
        i = i + 1;
    }
    false
}

/// A longer slice of the same sequence takes at least as many bytes.
pub proof fn lemma_utf8_len_monotone(s: Seq<char>, from: int, mid: int, to: int)
    requires
        0 <= from <= mid <= to <= s.len(),
    ensures
        utf8_len(s.subrange(from, mid)) <= utf8_len(s.subrange(from, to)),
    decreases to - mid,
{
    if mid < to {
        lemma_utf8_len_monotone(s, from, mid, to - 1);
        lemma_utf8_len_push(s.subrange(from, to - 1), s[to - 1]);
        assert(s.subrange(from, to - 1).push(s[to - 1]) =~= s.subrange(from, to));
    }
}

} // verus!
