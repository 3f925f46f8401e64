//! Character-sequence helpers shared by the parsers and printers of the crate.
use vstd::prelude::*;

verus! {

/// Appends one character to a `String` (std `String::push`).
#[verifier::external_body]
pub(crate) fn push_char(s: &mut String, c: char)
    ensures
        final(s)@ == old(s)@.push(c),
{
    s.push(c);
}

/// Builds a `String` holding exactly the given characters.
pub fn string_from_chars(v: &[char]) -> (s: String)
    ensures
        s@ == v@,
{
    let mut s = String::new();
    let mut i: usize = 0;
    while i < v.len()
        invariant
            i <= v@.len(),
            s@ == v@.subrange(0, i as int),
        decreases v@.len() - i,
    {
        push_char(&mut s, v[i]);
        assert(v@.subrange(0, i + 1) == v@.subrange(0, i as int).push(v@[i as int]));
        i = i + 1;
    }
    assert(v@.subrange(0, v@.len() as int) == v@);
    s
}

/// The characters of a string slice, in order.
pub fn chars_of(s: &str) -> (v: Vec<char>)
    ensures
        v@ == s@,
{
    let mut v: Vec<char> = Vec::new();
    for c in it: s.chars()
        invariant
            v@ == it.seq().take(it.index() as int),
            it.seq() == s@,
    {
        v.push(c);
    }
    v
}

} // verus!

verus! {

/// Unicode `White_Space` property, the set `char::is_whitespace` accepts.
pub open spec fn is_whitespace(c: char) -> bool {
    let u = c as u32;
    ||| 0x09 <= u <= 0x0D
    ||| u == 0x20
    ||| u == 0x85
    ||| u == 0xA0
    ||| u == 0x1680
    ||| 0x2000 <= u <= 0x200A
    ||| u == 0x2028
    ||| u == 0x2029
    ||| u == 0x202F
    ||| u == 0x205F
    ||| u == 0x3000
}

/// Executable form of [`is_whitespace`].
pub fn char_is_whitespace(c: char) -> (b: bool)
    ensures
        b == is_whitespace(c),
{
    let u = c as u32;
    (0x09 <= u && u <= 0x0D) || u == 0x20 || u == 0x85 || u == 0xA0 || u == 0x1680 || (0x2000 <= u
        && u <= 0x200A) || u == 0x2028 || u == 0x2029 || u == 0x202F || u == 0x205F || u == 0x3000
}

/// `s` without its leading whitespace.
pub open spec fn trim_start(s: Seq<char>) -> Seq<char>
    decreases s.len(),
{
    if s.len() > 0 && is_whitespace(s[0]) {
        trim_start(s.drop_first())
    } else {
        s
    }
}

/// `s` without its trailing whitespace.
pub open spec fn trim_end(s: Seq<char>) -> Seq<char>
    decreases s.len(),
{
    if s.len() > 0 && is_whitespace(s.last()) {
        trim_end(s.drop_last())
    } else {
        s
    }
}

/// `s` without leading and trailing whitespace (what `str::trim` returns).
pub open spec fn trim(s: Seq<char>) -> Seq<char> {
    trim_end(trim_start(s))
}

/// Bounds `(a, b)` such that `v[a..b]` is `v[lo..hi]` trimmed.
pub fn trim_bounds(v: &[char], lo: usize, hi: usize) -> (r: (usize, usize))
    requires
        lo <= hi <= v@.len(),
    ensures
        lo <= r.0 <= r.1 <= hi,
        v@.subrange(r.0 as int, r.1 as int) == trim(v@.subrange(lo as int, hi as int)),
{
    let mut a = lo;
    while a < hi && char_is_whitespace(v[a])
        invariant
            lo <= a <= hi <= v@.len(),
            trim_start(v@.subrange(lo as int, hi as int)) == trim_start(
                v@.subrange(a as int, hi as int),
            ),
        decreases hi - a,
    {
        assert(v@.subrange(a as int, hi as int).drop_first() == v@.subrange(a + 1, hi as int));
        a = a + 1;
    }
    let mut b = hi;
    while b > a && char_is_whitespace(v[b - 1])
        invariant
            lo <= a <= b <= hi <= v@.len(),
            trim_end(v@.subrange(a as int, hi as int)) == trim_end(
                v@.subrange(a as int, b as int),
            ),
        decreases b - a,
    {
        assert(v@.subrange(a as int, b as int).drop_last() == v@.subrange(a as int, b - 1));
        b = b - 1;
    }
    (a, b)
}

/// Whether `i` is the first position of `c` in `s`.
pub open spec fn is_first_index(s: Seq<char>, c: char, i: int) -> bool {
    &&& 0 <= i < s.len()
    &&& s[i] == c
    &&& forall|j: int| 0 <= j < i ==> s[j] != c
}

/// Whether `c` occurs in `s`.
pub open spec fn has_char(s: Seq<char>, c: char) -> bool {
    exists|i: int| 0 <= i < s.len() && s[i] == c
}

/// The first position of `c` in `s`, where it occurs.
pub open spec fn first_index(s: Seq<char>, c: char) -> int
    recommends
        has_char(s, c),
{
    choose|i: int| is_first_index(s, c, i)
}

/// The pieces around the first `c` in `s` (what `str::split_once` returns).
pub open spec fn split_once(s: Seq<char>, c: char) -> Option<(Seq<char>, Seq<char>)> {
    if has_char(s, c) {
        let i = first_index(s, c);
        Some((s.take(i), s.skip(i + 1)))
    } else {
        None
    }
}

/// The first position of `c` in `s`, when there is one, is the unique first index.
pub proof fn lemma_first_index(s: Seq<char>, c: char, i: int)
    requires
        is_first_index(s, c, i),
    ensures
        has_char(s, c),
        first_index(s, c) == i,
{
    let k = first_index(s, c);
    assert(is_first_index(s, c, k));
    if k < i {
        assert(s[k] != c);
    } else if i < k {
        assert(s[i] != c);
    }
}

/// Whether string slice `s` equals `lit`.
pub fn str_is(s: &str, lit: &str) -> (b: bool)
    ensures
        b == (s@ == lit@),
{
    let a = chars_of(s);
    let b = chars_of(lit);
    assert(a@.subrange(0, a@.len() as int) == a@);
    slice_eq(&a, 0, a.len(), &b)
}

/// Whether `s` begins with `p` (what `str::starts_with` answers for a string pattern).
pub open spec fn starts_with(s: Seq<char>, p: Seq<char>) -> bool {
    p.len() <= s.len() && s.take(p.len() as int) == p
}

/// Whether string slice `s` begins with `p`.
pub fn str_starts_with(s: &str, p: &str) -> (b: bool)
    ensures
        b == starts_with(s@, p@),
{
    let a = chars_of(s);
    let b = chars_of(p);
    if b.len() > a.len() {
        return false;
    }
    assert(a@.take(b@.len() as int) == a@.subrange(0, b@.len() as int));
    slice_eq(&a, 0, b.len(), &b)
}

/// Position of the first `c` in `v[lo..hi]`, counted from the start of `v`.
pub fn find_char(v: &[char], lo: usize, hi: usize, c: char) -> (r: Option<usize>)
    requires
        lo <= hi <= v@.len(),
    ensures
        match r {
            Some(i) => lo <= i < hi && is_first_index(
                v@.subrange(lo as int, hi as int),
                c,
                i - lo,
            ),
            None => !has_char(v@.subrange(lo as int, hi as int), c),
        },
{
    let mut i = lo;
    while i < hi
        invariant
            lo <= i <= hi <= v@.len(),
            forall|j: int| lo <= j < i ==> v@[j] != c,
        decreases hi - i,
    {
        if v[i] == c {
            return Some(i);
        }
        i = i + 1;
    }
    None
}

/// Whether `v[lo..hi]` equals `w`.
pub fn slice_eq(v: &[char], lo: usize, hi: usize, w: &[char]) -> (b: bool)
    requires
        lo <= hi <= v@.len(),
    ensures
        b == (v@.subrange(lo as int, hi as int) == w@),
{
    if hi - lo != w.len() {
        return false;
    }
    let mut i: usize = 0;
    while i < w.len()
        invariant
            hi - lo == w@.len(),
            lo <= hi <= v@.len(),
            i <= w@.len(),
            forall|j: int| 0 <= j < i ==> v@[lo + j] == w@[j],
        decreases w@.len() - i,
    {
        if v[lo + i] != w[i] {
            assert(v@.subrange(lo as int, hi as int)[i as int] != w@[i as int]);
            return false;
        }
        i = i + 1;
    }
    assert(v@.subrange(lo as int, hi as int) =~= w@);
    true
}

} // verus!

verus! {

/// The ASCII character of decimal digit `d`.
pub open spec fn digit(d: int) -> char {
    if d == 0 {
        '0'
    } else if d == 1 {
        '1'
    } else if d == 2 {
        '2'
    } else if d == 3 {
        '3'
    } else if d == 4 {
        '4'
    } else if d == 5 {
        '5'
    } else if d == 6 {
        '6'
    } else if d == 7 {
        '7'
    } else if d == 8 {
        '8'
    } else {
        '9'
    }
}

/// Decimal digits of `n`, most significant first, without leading zeros.
pub open spec fn decimal_nat(n: nat) -> Seq<char>
    decreases n,
{
    if n < 10 {
        seq![digit(n as int)]
    } else {
        decimal_nat(n / 10).push(digit((n % 10) as int))
    }
}

/// Decimal representation of `n` as `Display` prints it.
pub open spec fn decimal_int(n: int) -> Seq<char> {
    if n < 0 {
        seq!['-'] + decimal_nat((-n) as nat)
    } else {
        decimal_nat(n as nat)
    }
}

fn digit_char(d: u64) -> (c: char)
    requires
        d < 10,
    ensures
        c == digit(d as int),
{
    if d == 0 {
        '0'
    } else if d == 1 {
        '1'
    } else if d == 2 {
        '2'
    } else if d == 3 {
        '3'
    } else if d == 4 {
        '4'
    } else if d == 5 {
        '5'
    } else if d == 6 {
        '6'
    } else if d == 7 {
        '7'
    } else if d == 8 {
        '8'
    } else {
        '9'
    }
}

/// Appends the decimal digits of `n` to `out`.
pub fn push_decimal_u64(out: &mut Vec<char>, n: u64)
    ensures
        final(out)@ == old(out)@ + decimal_nat(n as nat),
    decreases n,
{
    if n >= 10 {
        push_decimal_u64(out, n / 10);
    }
    push_char_vec(out, digit_char(n % 10));
}

fn push_char_vec(out: &mut Vec<char>, c: char)
    ensures
        final(out)@ == old(out)@.push(c),
{
    out.push(c);
}

/// Appends the decimal representation of `n` (with a leading `-` when negative) to `out`.
pub fn push_decimal_i64(out: &mut Vec<char>, n: i64)
    ensures
        final(out)@ == old(out)@ + decimal_int(n as int),
{
    if n < 0 {
        out.push('-');
        let m: u64 = (-(n as i128)) as u64;
        push_decimal_u64(out, m);
    } else {
        push_decimal_u64(out, n as u64);
    }
}

/// Appends the characters of `s` to `out`.
pub fn push_str_chars(out: &mut Vec<char>, s: &str)
    ensures
        final(out)@ == old(out)@ + s@,
{
    let w = chars_of(s);
    let mut i: usize = 0;
    let ghost start = out@;
    while i < w.len()
        invariant
            i <= w@.len(),
            w@ == s@,
            out@ == start + w@.subrange(0, i as int),
        decreases w@.len() - i,
    {
        out.push(w[i]);
        assert(w@.subrange(0, i + 1) == w@.subrange(0, i as int).push(w@[i as int]));
        i = i + 1;
    }
    assert(w@.subrange(0, w@.len() as int) == w@);
}

/// Appends `v[lo..hi]` to `out`.
pub fn push_slice(out: &mut Vec<char>, v: &[char], lo: usize, hi: usize)
    requires
        lo <= hi <= v@.len(),
    ensures
        final(out)@ == old(out)@ + v@.subrange(lo as int, hi as int),
{
    let mut i = lo;
    let ghost start = out@;
    while i < hi
        invariant
            lo <= i <= hi <= v@.len(),
            out@ == start + v@.subrange(lo as int, i as int),
        decreases hi - i,
    {
        out.push(v[i]);
        assert(v@.subrange(lo as int, i + 1) == v@.subrange(lo as int, i as int).push(v@[i as int]));
        i = i + 1;
    }
}

/// Whether `c` is an ASCII decimal digit.
pub open spec fn is_digit(c: char) -> bool {
    '0' <= c <= '9'
}

/// Value of the digit character `c`.
pub open spec fn digit_value(c: char) -> nat {
    (c as u32 - '0' as u32) as nat
}

/// Value of a string of decimal digits.
pub open spec fn digits_value(s: Seq<char>) -> nat
    decreases s.len(),
{
    if s.len() == 0 {
        0
    } else {
        digits_value(s.drop_last()) * 10 + digit_value(s.last())
    }
}

/// Whether `s` is a non-empty string of decimal digits.
pub open spec fn all_digits(s: Seq<char>) -> bool {
    s.len() > 0 && forall|i: int| 0 <= i < s.len() ==> is_digit(#[trigger] s[i])
}

/// What `str::parse::<u32>` returns: an optional `+`, then digits, within range.
pub open spec fn parse_u32_spec(s: Seq<char>) -> Option<u32> {
    let d = if s.len() > 0 && s[0] == '+' {
        s.drop_first()
    } else {
        s
    };
    if all_digits(d) && digits_value(d) <= u32::MAX {
        Some(digits_value(d) as u32)
    } else {
        None
    }
}

/// What `str::parse::<i32>` returns: an optional sign, then digits, within range.
pub open spec fn parse_i32_spec(s: Seq<char>) -> Option<i32> {
    let neg = s.len() > 0 && s[0] == '-';
    let d = if s.len() > 0 && (s[0] == '+' || s[0] == '-') {
        s.drop_first()
    } else {
        s
    };
    let v: int = if neg {
        -(digits_value(d) as int)
    } else {
        digits_value(d) as int
    };
    if all_digits(d) && i32::MIN <= v <= i32::MAX {
        Some(v as i32)
    } else {
        None
    }
}

/// Value of the digits `v[lo..hi]`, capped just above `cap`: `None` when the
/// slice is empty or holds a non-digit, `Some(cap + 1)` when the value exceeds `cap`.
fn digits_capped(v: &[char], lo: usize, hi: usize, cap: u64) -> (r: Option<u64>)
    requires
        lo <= hi <= v@.len(),
        cap < u64::MAX / 16,
    ensures
        match r {
            None => !all_digits(v@.subrange(lo as int, hi as int)),
            Some(x) => all_digits(v@.subrange(lo as int, hi as int)) && (if digits_value(
                v@.subrange(lo as int, hi as int),
            ) <= cap {
                x == digits_value(v@.subrange(lo as int, hi as int))
            } else {
                x == cap + 1
            }),
        },
{
    if lo == hi {
        return None;
    }
    let mut acc: u64 = 0;
    let mut i = lo;
    while i < hi
        invariant
            lo <= i <= hi <= v@.len(),
            cap < u64::MAX / 16,
            forall|j: int| lo <= j < i ==> is_digit(v@[j]),
            acc <= cap + 1,
            digits_value(v@.subrange(lo as int, i as int)) <= cap ==> acc == digits_value(
                v@.subrange(lo as int, i as int),
            ),
            digits_value(v@.subrange(lo as int, i as int)) > cap ==> acc == cap + 1,
        decreases hi - i,
    {
        let c = v[i];
        if !('0' <= c && c <= '9') {
            assert(v@.subrange(lo as int, hi as int)[i - lo] == c);
            return None;
        }
        let d = (c as u32 - '0' as u32) as u64;
        let ghost prev = v@.subrange(lo as int, i as int);
        assert(v@.subrange(lo as int, i + 1).drop_last() == prev);
        let ghost nv = digits_value(v@.subrange(lo as int, i + 1));
        assert(nv == digits_value(prev) * 10 + d);
        if acc > cap {
            assert(nv > cap) by (nonlinear_arith)
                requires
                    nv == digits_value(prev) * 10 + d,
                    digits_value(prev) > cap,
            ;
        } else {
            let next = acc * 10 + d;
            if next > cap {
                acc = cap + 1;
            } else {
                acc = next;
            }
        }
        i = i + 1;
    }
    assert forall|j: int| 0 <= j < v@.subrange(lo as int, hi as int).len() implies is_digit(
        #[trigger] v@.subrange(lo as int, hi as int)[j],
    ) by {
        assert(v@.subrange(lo as int, hi as int)[j] == v@[lo + j]);
    }
    Some(acc)
}

/// `str::parse::<u32>` on `v[lo..hi]`.
pub fn parse_u32(v: &[char], lo: usize, hi: usize) -> (r: Option<u32>)
    requires
        lo <= hi <= v@.len(),
    ensures
        r == parse_u32_spec(v@.subrange(lo as int, hi as int)),
{
    let ghost s = v@.subrange(lo as int, hi as int);
    let start = if lo < hi && v[lo] == '+' {
        lo + 1
    } else {
        lo
    };
    assert(lo < hi && v@[lo as int] == '+' ==> s.drop_first() == v@.subrange(lo + 1, hi as int));
    match digits_capped(v, start, hi, 0xFFFF_FFFF) {
        None => None,
        Some(x) => {
            if x > 0xFFFF_FFFF {
                None
            } else {
                Some(x as u32)
            }
        },
    }
}

/// `str::parse::<i32>` on `v[lo..hi]`.
pub fn parse_i32(v: &[char], lo: usize, hi: usize) -> (r: Option<i32>)
    requires
        lo <= hi <= v@.len(),
    ensures
        r == parse_i32_spec(v@.subrange(lo as int, hi as int)),
{
    let ghost s = v@.subrange(lo as int, hi as int);
    let neg = lo < hi && v[lo] == '-';
    let signed = lo < hi && (v[lo] == '+' || v[lo] == '-');
    let start = if signed {
        lo + 1
    } else {
        lo
    };
    assert(signed ==> s.drop_first() == v@.subrange(lo + 1, hi as int));
    match digits_capped(v, start, hi, 0x8000_0000) {
        None => None,
        Some(x) => {
            if neg {
                if x > 0x8000_0000 {
                    None
                } else {
                    Some((-(x as i64)) as i32)
                }
            } else {
                if x > 0x7FFF_FFFF {
                    None
                } else {
                    Some(x as i32)
                }
            }
        },
    }
}

} // verus!

verus! {

/// The pieces of `s` between occurrences of `c` (what `str::split` yields).
pub open spec fn split_char(s: Seq<char>, c: char) -> Seq<Seq<char>>
    decreases s.len(),
{
    if s.len() == 0 {
        seq![Seq::<char>::empty()]
    } else {
        let p = split_char(s.drop_last(), c);
        if s.last() == c {
            p.push(Seq::<char>::empty())
        } else {
            p.update(p.len() - 1, p.last().push(s.last()))
        }
    }
}

/// Splitting always yields at least one piece.
pub proof fn lemma_split_nonempty(s: Seq<char>, c: char)
    ensures
        split_char(s, c).len() >= 1,
    decreases s.len(),
{
    if s.len() > 0 {
        lemma_split_nonempty(s.drop_last(), c);
    }
}

/// A sequence without the separator is a single piece.
pub proof fn lemma_split_without_separator(s: Seq<char>, c: char)
    requires
        !has_char(s, c),
    ensures
        split_char(s, c) == seq![s],
    decreases s.len(),
{
    if s.len() > 0 {
        let t = s.drop_last();
        assert(!has_char(t, c)) by {
            if has_char(t, c) {
                let i = choose|i: int| 0 <= i < t.len() && t[i] == c;
                assert(s[i] == c);
            }
        }
        lemma_split_without_separator(t, c);
        assert(s[s.len() - 1] != c);
        assert(t.push(s.last()) == s);
        assert(seq![t].update(0, t.push(s.last())) == seq![s]);
    } else {
        assert(s == Seq::<char>::empty());
    }
}

/// Splitting `a`, the separator, then `b` gives the pieces of `a` followed by those of `b`.
pub proof fn lemma_split_concat(a: Seq<char>, b: Seq<char>, c: char)
    ensures
        split_char(a + seq![c] + b, c) == split_char(a, c) + split_char(b, c),
    decreases b.len(),
{
    let s = a + seq![c] + b;
    if b.len() == 0 {
        assert(s.drop_last() == a);
        assert(s.last() == c);
        assert(split_char(b, c) == seq![Seq::<char>::empty()]);
    } else {
        let b1 = b.drop_last();
        lemma_split_concat(a, b1, c);
        lemma_split_nonempty(b1, c);
        assert(s.drop_last() == a + seq![c] + b1);
        assert(s.last() == b.last());
        let p = split_char(a, c);
        let q = split_char(b1, c);
        if b.last() == c {
            assert((p + q).push(Seq::<char>::empty()) == p + q.push(Seq::<char>::empty()));
        } else {
            assert((p + q).update((p + q).len() - 1, (p + q).last().push(b.last())) == p + q.update(
                q.len() - 1,
                q.last().push(b.last()),
            ));
        }
    }
}

} // verus!

verus! {

/// A `String` holding `v[lo..hi]`.
pub fn string_of_range(v: &[char], lo: usize, hi: usize) -> (s: String)
    requires
        lo <= hi <= v@.len(),
    ensures
        s@ == v@.subrange(lo as int, hi as int),
{
    let mut out: Vec<char> = Vec::new();
    push_slice(&mut out, v, lo, hi);
    string_from_chars(&out)
}

} // verus!

verus! {

/// `s` with every `c` replaced by `r` (what `str::replace` returns for a char pattern).
pub open spec fn replace_char(s: Seq<char>, c: char, r: Seq<char>) -> Seq<char>
    decreases s.len(),
{
    if s.len() == 0 {
        Seq::empty()
    } else {
        replace_char(s.drop_last(), c, r) + if s.last() == c {
            r
        } else {
            seq![s.last()]
        }
    }
}

/// Replacing in two runs is replacing in each.
pub proof fn lemma_replace_char_concat(a: Seq<char>, b: Seq<char>, c: char, r: Seq<char>)
    ensures
        replace_char(a + b, c, r) == replace_char(a, c, r) + replace_char(b, c, r),
    decreases b.len(),
{
    if b.len() == 0 {
        assert(a + b == a);
        assert(replace_char(a, c, r) + Seq::<char>::empty() == replace_char(a, c, r));
    } else {
        lemma_replace_char_concat(a, b.drop_last(), c, r);
        assert((a + b).drop_last() == a + b.drop_last());
        assert((a + b).last() == b.last());
    }
}

/// Replacing in one character.
pub proof fn lemma_replace_char_single(x: char, c: char, r: Seq<char>)
    ensures
        replace_char(seq![x], c, r) == if x == c {
            r
        } else {
            seq![x]
        },
{
    assert(seq![x].drop_last() == Seq::<char>::empty());
    assert(replace_char(Seq::<char>::empty(), c, r) == Seq::<char>::empty());
    assert(Seq::<char>::empty() + r == r);
    assert(Seq::<char>::empty() + seq![x] == seq![x]);
}

/// Appends `v[lo..hi]` to `out` with every `c` replaced by `rep`.
pub fn push_replaced(out: &mut Vec<char>, v: &[char], lo: usize, hi: usize, c: char, rep: &[char])
    requires
        lo <= hi <= v@.len(),
    ensures
        final(out)@ == old(out)@ + replace_char(v@.subrange(lo as int, hi as int), c, rep@),
{
    let ghost start = out@;
    let mut i = lo;
    while i < hi
        invariant
            lo <= i <= hi <= v@.len(),
            out@ == start + replace_char(v@.subrange(lo as int, i as int), c, rep@),
        decreases hi - i,
    {
        assert(v@.subrange(lo as int, i + 1).drop_last() == v@.subrange(lo as int, i as int));
        if v[i] == c {
            push_slice(out, rep, 0, rep.len());
            assert(rep@.subrange(0, rep@.len() as int) == rep@);
        } else {
            out.push(v[i]);
        }
        i = i + 1;
    }
}

/// Whether `s` holds any of the characters of `cs`.
pub open spec fn has_any(s: Seq<char>, cs: Seq<char>) -> bool {
    exists|i: int, j: int| 0 <= i < s.len() && 0 <= j < cs.len() && s[i] == cs[j]
}

/// Whether `v[lo..hi]` holds any of the characters of `cs`.
pub fn contains_any(v: &[char], lo: usize, hi: usize, cs: &[char]) -> (b: bool)
    requires
        lo <= hi <= v@.len(),
    ensures
        b == has_any(v@.subrange(lo as int, hi as int), cs@),
{
    let ghost s = v@.subrange(lo as int, hi as int);
    let mut i = lo;
    while i < hi
        invariant
            lo <= i <= hi <= v@.len(),
            s == v@.subrange(lo as int, hi as int),
            forall|a: int, b: int| lo <= a < i && 0 <= b < cs@.len() ==> v@[a] != cs@[b],
        decreases hi - i,
    {
        let mut j: usize = 0;
        while j < cs.len()
            invariant
                lo <= i < hi <= v@.len(),
                s == v@.subrange(lo as int, hi as int),
                j <= cs@.len(),
                forall|b: int| 0 <= b < j ==> v@[i as int] != cs@[b],
            decreases cs@.len() - j,
        {
            if v[i] == cs[j] {
                assert(s[i - lo] == cs@[j as int]);
                return true;
            }
            j = j + 1;
        }
        i = i + 1;
    }
    assert forall|a: int, b: int| 0 <= a < s.len() && 0 <= b < cs@.len() implies s[a] != cs@[b] by {
        assert(s[a] == v@[lo + a]);
    }
    false
}

} // verus!

verus! {

/// Whether `pat` occurs in `s` starting at `i`.
pub open spec fn occurs_at(s: Seq<char>, pat: Seq<char>, i: int) -> bool {
    0 <= i && i + pat.len() <= s.len() && s.subrange(i, i + pat.len()) == pat
}

/// Whether `pat` occurs in `s` (what `str::contains` answers for a string pattern).
pub open spec fn contains_seq(s: Seq<char>, pat: Seq<char>) -> bool {
    exists|i: int| occurs_at(s, pat, i)
}

/// Whether `i` is the first occurrence of `pat` in `s`.
pub open spec fn is_first_occurrence(s: Seq<char>, pat: Seq<char>, i: int) -> bool {
    occurs_at(s, pat, i) && forall|j: int| 0 <= j < i ==> !occurs_at(s, pat, j)
}

/// The first occurrence of `pat` in `s` (what `str::find` answers, in characters).
pub open spec fn find_seq(s: Seq<char>, pat: Seq<char>) -> Option<int> {
    if contains_seq(s, pat) {
        Some(choose|i: int| is_first_occurrence(s, pat, i))
    } else {
        None
    }
}

/// The first occurrence is unique.
pub proof fn lemma_first_occurrence(s: Seq<char>, pat: Seq<char>, i: int)
    requires
        is_first_occurrence(s, pat, i),
    ensures
        contains_seq(s, pat),
        find_seq(s, pat) == Some(i),
{
    let k = choose|k: int| is_first_occurrence(s, pat, k);
    assert(is_first_occurrence(s, pat, k));
    if k < i {
        assert(!occurs_at(s, pat, k));
    } else if i < k {
        assert(!occurs_at(s, pat, i));
    }
}

/// First occurrence of `pat` in `v[lo..hi]`, as an index of `v`.
pub fn find_in(v: &[char], lo: usize, hi: usize, pat: &[char]) -> (r: Option<usize>)
    requires
        lo <= hi <= v@.len(),
    ensures
        match r {
            Some(i) => lo <= i <= hi && find_seq(v@.subrange(lo as int, hi as int), pat@) == Some(
                i - lo,
            ),
            None => find_seq(v@.subrange(lo as int, hi as int), pat@) is None,
        },
{
    let ghost s = v@.subrange(lo as int, hi as int);
    if pat.len() > hi - lo {
        assert forall|j: int| !occurs_at(s, pat@, j) by {}
        return None;
    }
    if pat.len() == 0 {
        assert(s.subrange(0, 0) == pat@);
        proof {
            lemma_first_occurrence(s, pat@, 0);
        }
        return Some(lo);
    }
    let last = hi - pat.len();
    let mut i = lo;
    while i <= last
        invariant
            lo <= i,
            pat@.len() >= 1,
            last + pat@.len() == hi,
            hi <= v@.len(),
            s == v@.subrange(lo as int, hi as int),
            forall|j: int| 0 <= j < i - lo ==> !occurs_at(s, pat@, j),
        decreases last + 1 - i,
    {
        if slice_eq(v, i, i + pat.len(), pat) {
            assert(s.subrange(i - lo, i - lo + pat@.len()) == v@.subrange(
                i as int,
                i + pat@.len(),
            ));
            proof {
                lemma_first_occurrence(s, pat@, i - lo);
            }
            return Some(i);
        }
        assert(s.subrange(i - lo, i - lo + pat@.len()) == v@.subrange(i as int, i + pat@.len()));
        i = i + 1;
    }
    assert forall|j: int| !occurs_at(s, pat@, j) by {
        if occurs_at(s, pat@, j) {
            assert(0 <= j < i - lo);
        }
    }
    None
}

} // verus!

verus! {

/// Lexicographic order of character sequences by code point: the order of
/// `str`/`String` comparison (UTF-8 byte order equals code point order).
pub open spec fn lex_lt(a: Seq<char>, b: Seq<char>) -> bool {
    exists|i: int| #[trigger] lex_witness(a, b, i)
}

/// `i` is the first position where `a` and `b` differ, and `a` is smaller there.
pub open spec fn lex_witness(a: Seq<char>, b: Seq<char>, i: int) -> bool {
    &&& 0 <= i <= a.len()
    &&& i <= b.len()
    &&& a.take(i) == b.take(i)
    &&& ((i == a.len() && i < b.len()) || (i < a.len() && i < b.len() && a[i] < b[i]))
}

/// Order of two sequences.
pub enum Order {
    Less,
    Equal,
    Greater,
}

/// Compares two character sequences lexicographically.
pub fn compare_chars(a: &[char], b: &[char]) -> (r: Order)
    ensures
        r is Less <==> lex_lt(a@, b@),
        r is Equal <==> a@ == b@,
        r is Greater <==> lex_lt(b@, a@),
{
    let mut i: usize = 0;
    while i < a.len() && i < b.len()
        invariant
            i <= a@.len(),
            i <= b@.len(),
            a@.take(i as int) == b@.take(i as int),
        decreases a@.len() - i,
    {
        if a[i] != b[i] {
            proof {
                lemma_lex_order(a@, b@);
            }
            if a[i] < b[i] {
                assert(lex_witness(a@, b@, i as int));
                return Order::Less;
            } else {
                assert(a@.take(i as int) == b@.take(i as int));
                assert(lex_witness(b@, a@, i as int));
                return Order::Greater;
            }
        }
        assert(a@.take(i + 1) == a@.take(i as int).push(a@[i as int]));
        assert(b@.take(i + 1) == b@.take(i as int).push(b@[i as int]));
        i = i + 1;
    }
    proof {
        lemma_lex_order(a@, b@);
    }
    if a.len() < b.len() {
        assert(lex_witness(a@, b@, i as int));
        Order::Less
    } else if b.len() < a.len() {
        assert(lex_witness(b@, a@, i as int));
        Order::Greater
    } else {
        assert(a@ == a@.take(i as int));
        assert(b@ == b@.take(i as int));
        Order::Equal
    }
}

/// Where two sequences differ before `n`, they have a first such position.
pub proof fn lemma_first_difference(a: Seq<char>, b: Seq<char>, n: int)
    requires
        0 <= n <= a.len(),
        n <= b.len(),
        exists|k: int| 0 <= k < n && a[k] != b[k],
    ensures
        exists|k: int| 0 <= k < n && a[k] != b[k] && forall|m: int| 0 <= m < k ==> a[m] == b[m],
    decreases n,
{
    if exists|k: int| 0 <= k < n - 1 && a[k] != b[k] {
        lemma_first_difference(a, b, n - 1);
        let k = choose|k: int|
            0 <= k < n - 1 && a[k] != b[k] && forall|m: int| 0 <= m < k ==> a[m] == b[m];
        assert(0 <= k < n && a[k] != b[k] && forall|m: int| 0 <= m < k ==> a[m] == b[m]);
    } else {
        assert(a[n - 1] != b[n - 1]);
        assert(forall|m: int| 0 <= m < n - 1 ==> a[m] == b[m]);
    }
}

/// `lex_lt` is a strict total order: irreflexive, asymmetric and total.
pub proof fn lemma_lex_order(a: Seq<char>, b: Seq<char>)
    ensures
        !lex_lt(a, a),
        !(lex_lt(a, b) && lex_lt(b, a)),
        a == b || lex_lt(a, b) || lex_lt(b, a),
{
    if lex_lt(a, a) {
        let i = choose|i: int| lex_witness(a, a, i);
    }
    if lex_lt(a, b) && lex_lt(b, a) {
        let i = choose|i: int| lex_witness(a, b, i);
        let j = choose|j: int| lex_witness(b, a, j);
        if i < j {
            assert(a.take(j)[i] == a[i]);
            assert(b.take(j)[i] == b[i]);
        } else if j < i {
            assert(a.take(i)[j] == a[j]);
            assert(b.take(i)[j] == b[j]);
        }
    }
    if a != b {
        // the first position where they differ, or the shorter length
        let n = if a.len() < b.len() {
            a.len()
        } else {
            b.len()
        };
        if forall|k: int| 0 <= k < n ==> a[k] == b[k] {
            assert(a.take(n as int) == b.take(n as int));
            if a.len() == b.len() {
                assert(a == b);
            } else if a.len() < b.len() {
                assert(lex_witness(a, b, n as int));
            } else {
                assert(lex_witness(b, a, n as int));
            }
        } else {
            lemma_first_difference(a, b, n as int);
            let k = choose|k: int|
                0 <= k < n && a[k] != b[k] && forall|m: int| 0 <= m < k ==> a[m] == b[m];
            assert(a.take(k) == b.take(k));
            if a[k] < b[k] {
                assert(lex_witness(a, b, k));
            } else {
                assert(lex_witness(b, a, k));
            }
        }
    }
}

} // verus!

verus! {

/// `lex_lt` is transitive.
pub proof fn lemma_lex_transitive(a: Seq<char>, b: Seq<char>, c: Seq<char>)
    requires
        lex_lt(a, b),
        lex_lt(b, c),
    ensures
        lex_lt(a, c),
{
    let i = choose|i: int| lex_witness(a, b, i);
    let j = choose|j: int| lex_witness(b, c, j);
    if i < j {
        assert(b.take(j)[i] == b[i]);
        assert(c.take(j)[i] == c[i]);
        assert(a.take(i) == c.take(i)) by {
            assert forall|m: int| 0 <= m < i implies a.take(i)[m] == c.take(i)[m] by {
                assert(b.take(j)[m] == c.take(j)[m]);
                assert(a.take(i)[m] == b.take(i)[m]);
            }
        }
        assert(lex_witness(a, c, i));
    } else if j < i {
        assert(a.take(i)[j] == a[j]);
        assert(b.take(i)[j] == b[j]);
        assert(a.take(j) == c.take(j)) by {
            assert forall|m: int| 0 <= m < j implies a.take(j)[m] == c.take(j)[m] by {
                assert(a.take(i)[m] == b.take(i)[m]);
                assert(b.take(j)[m] == c.take(j)[m]);
            }
        }
        assert(lex_witness(a, c, j));
    } else {
        assert(a.take(i) == c.take(i));
        assert(lex_witness(a, c, i));
    }
}

} // verus!

verus! {

/// A digit character has the digit's value.
pub proof fn lemma_digit_value(d: int)
    requires
        0 <= d < 10,
    ensures
        is_digit(digit(d)),
        digit_value(digit(d)) == d,
{
}

/// The digits of `n` are ASCII digits whose value is `n`.
pub proof fn lemma_decimal_nat(n: nat)
    ensures
        all_digits(decimal_nat(n)),
        digits_value(decimal_nat(n)) == n,
    decreases n,
{
    lemma_digit_value((n % 10) as int);
    if n < 10 {
        let s = decimal_nat(n);
        assert(s.drop_last() == Seq::<char>::empty());
        assert(s.last() == digit(n as int));
        assert(n % 10 == n);
        assert(digits_value(s) == digits_value(s.drop_last()) * 10 + digit_value(s.last()));
    } else {
        lemma_decimal_nat(n / 10);
        let p = decimal_nat(n / 10);
        let s = decimal_nat(n);
        assert(s.drop_last() == p);
        assert(s.last() == digit((n % 10) as int));
        assert(digits_value(s) == digits_value(p) * 10 + digit_value(s.last()));
        assert((n / 10) * 10 + n % 10 == n) by (nonlinear_arith);
        assert forall|i: int| 0 <= i < s.len() implies is_digit(#[trigger] s[i]) by {
            if i < p.len() {
                assert(s[i] == p[i]);
            }
        }
    }
}

/// Decimal text has no surrounding whitespace and starts with a digit.
pub proof fn lemma_decimal_trimmed(n: nat)
    ensures
        trim(decimal_nat(n)) == decimal_nat(n),
        decimal_nat(n)[0] != '+',
        decimal_nat(n)[0] != '-',
{
    lemma_decimal_nat(n);
    let s = decimal_nat(n);
    assert(is_digit(s[0]));
    assert(is_digit(s[s.len() - 1]));
    assert(trim_start(s) == s);
    assert(trim_end(s) == s);
}

} // verus!

verus! {

/// Whether string slice `s` contains `pat`.
pub fn str_contains(s: &str, pat: &str) -> (b: bool)
    ensures
        b == contains_seq(s@, pat@),
{
    let v = chars_of(s);
    let p = chars_of(pat);
    assert(v@.subrange(0, v@.len() as int) == v@);
    find_in(&v, 0, v.len(), &p).is_some()
}

} // verus!
