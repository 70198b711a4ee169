//! Number syntax: the decimal floating-point literal grammar that
//! `str::parse::<f64>` accepts, the `i32` literal grammar, and exact
//! decimal rendering of integers.
use vstd::prelude::*;

verus! {

pub open spec fn is_ascii_digit(c: char) -> bool {
    '0' <= c && c <= '9'
}

pub open spec fn all_ascii_digits(s: Seq<char>) -> bool {
    forall|i: int| 0 <= i < s.len() ==> is_ascii_digit(#[trigger] s[i])
}

pub open spec fn is_sign(c: char) -> bool {
    c == '+' || c == '-'
}

/// The string without one leading `+` or `-`, if it has one.
pub open spec fn strip_sign(s: Seq<char>) -> Seq<char> {
    if s.len() > 0 && is_sign(s[0]) {
        s.skip(1)
    } else {
        s
    }
}

/// `c` is the lower-case ASCII letter `lower` in either case, or equals it.
pub open spec fn ascii_ci_char(c: char, lower: char) -> bool {
    c == lower || ('a' <= lower && lower <= 'z' && c as u32 + 32 == lower as u32)
}

pub open spec fn eq_ignore_ascii_case(s: Seq<char>, lower: Seq<char>) -> bool {
    &&& s.len() == lower.len()
    &&& forall|i: int| 0 <= i < s.len() ==> ascii_ci_char(#[trigger] s[i], lower[i])
}

/// `Digit+ | Digit+ '.' Digit* | Digit* '.' Digit+`
pub open spec fn is_mantissa(m: Seq<char>) -> bool {
    exists|k: int|
        #![trigger m.take(k)]
        0 <= k <= m.len() && all_ascii_digits(m.take(k)) && if k == m.len() {
            k >= 1
        } else {
            m[k] == '.' && all_ascii_digits(m.skip(k + 1)) && m.len() >= 2
        }
}

/// `Sign? Digit+` (what follows the exponent marker).
pub open spec fn is_exponent_digits(x: Seq<char>) -> bool {
    strip_sign(x).len() >= 1 && all_ascii_digits(strip_sign(x))
}

pub open spec fn is_exp_marker(c: char) -> bool {
    c == 'e' || c == 'E'
}

/// `Mantissa Exp?`
pub open spec fn is_decimal_number(t: Seq<char>) -> bool {
    exists|j: int|
        #![trigger t.take(j)]
        0 <= j <= t.len() && is_mantissa(t.take(j)) && (j == t.len() || (is_exp_marker(t[j])
            && is_exponent_digits(t.skip(j + 1))))
}

/// The strings that `str::parse::<f64>` accepts. std documents the grammar,
/// applied to the lower-cased string, as
/// `Float ::= Sign? ( 'inf' | 'infinity' | 'nan' | Number )`,
/// `Number ::= ( Digit+ | Digit+ '.' Digit* | Digit* '.' Digit+ ) Exp?`,
/// `Exp ::= 'e' Sign? Digit+`, `Sign ::= [+-]`, `Digit ::= [0-9]`;
/// leading and trailing whitespace are errors.
pub open spec fn is_float_literal(s: Seq<char>) -> bool {
    let t = strip_sign(s);
    ||| eq_ignore_ascii_case(t, seq!['i', 'n', 'f'])
    ||| eq_ignore_ascii_case(t, seq!['i', 'n', 'f', 'i', 'n', 'i', 't', 'y'])
    ||| eq_ignore_ascii_case(t, seq!['n', 'a', 'n'])
    ||| is_decimal_number(t)
}

pub fn char_is_ascii_digit(c: char) -> (b: bool)
    ensures
        b == is_ascii_digit(c),
{
    '0' <= c && c <= '9'
}

/// The first index in `[from, to)` whose character is not an ASCII digit,
/// or `to` when there is none.
pub fn scan_digits(v: &Vec<char>, from: usize, to: usize) -> (r: usize)
    requires
        from <= to <= v.len(),
    ensures
        from <= r <= to,
        all_ascii_digits(v@.subrange(from as int, r as int)),
        r < to ==> !is_ascii_digit(v@[r as int]),
{
    let mut i = from;
    while i < to && char_is_ascii_digit(v[i])
        invariant
            from <= i <= to <= v.len(),
            all_ascii_digits(v@.subrange(from as int, i as int)),
        decreases to - i,
    {
        assert(v@.subrange(from as int, i + 1) == v@.subrange(from as int, i as int).push(v@[i as int]));
        i = i + 1;
    }
    i
}

/// Whether `v[from..to]` is a mantissa.
pub fn is_mantissa_range(v: &Vec<char>, from: usize, to: usize) -> (b: bool)
    requires
        from <= to <= v.len(),
    ensures
        b == is_mantissa(v@.subrange(from as int, to as int)),
{
    let ghost m = v@.subrange(from as int, to as int);
    let p = scan_digits(v, from, to);
    let ghost k = p - from;
    assert(m.take(k) == v@.subrange(from as int, p as int));
    if p == to {
        if to - from >= 1 {
            assert(all_ascii_digits(m.take(k)) && k == m.len());
            true
        } else {
            assert forall|k2: int| 0 <= k2 <= m.len() implies !(#[trigger] all_ascii_digits(m.take(k2)) && if k2 == m.len() {
                k2 >= 1
            } else {
                m[k2] == '.' && all_ascii_digits(m.skip(k2 + 1)) && m.len() >= 2
            }) by {}
            false
        }
    } else {
        let q = scan_digits(v, p + 1, to);
        assert(m.skip(k + 1) == v@.subrange(p + 1, to as int));
        let ok = v[p] == '.' && q == to && to - from >= 2;
        if ok {
            assert(m[k] == v@[p as int]);
            true
        } else {
            assert forall|k2: int| 0 <= k2 <= m.len() implies !(#[trigger] all_ascii_digits(m.take(k2)) && if k2 == m.len() {
                k2 >= 1
            } else {
                m[k2] == '.' && all_ascii_digits(m.skip(k2 + 1)) && m.len() >= 2
            }) by {
                if k2 < k {
                    assert(m[k2] == m.take(k)[k2]);
                } else if k2 > k {
                    assert(m.take(k2)[k] == v@[p as int]);
                } else {
                    assert(m[k] == v@[p as int]);
                    if v[p as int] == '.' && to - from >= 2 {
                        assert(!all_ascii_digits(v@.subrange(p + 1, to as int))) by {
                            assert(v@[q as int] == v@.subrange(p + 1, to as int)[q - (p + 1)]);
                        }
                    }
                }
            }
            false
        }
    }
}

/// Whether `v[from..to]` is `Sign? Digit+`.
pub fn is_exponent_range(v: &Vec<char>, from: usize, to: usize) -> (b: bool)
    requires
        from <= to <= v.len(),
    ensures
        b == is_exponent_digits(v@.subrange(from as int, to as int)),
{
    let ghost x = v@.subrange(from as int, to as int);
    let start = if from < to && (v[from] == '+' || v[from] == '-') {
        from + 1
    } else {
        from
    };
    assert(strip_sign(x) == v@.subrange(start as int, to as int));
    if start < to {
        let q = scan_digits(v, start, to);
        if q == to {
            true
        } else {
            assert(v@[q as int] == strip_sign(x)[q - start]);
            false
        }
    } else {
        false
    }
}

/// The first index in `[from, to)` holding `e` or `E`, or `to`.
pub fn find_exp_marker(v: &Vec<char>, from: usize, to: usize) -> (r: usize)
    requires
        from <= to <= v.len(),
    ensures
        from <= r <= to,
        forall|i: int| from <= i < r ==> !is_exp_marker(#[trigger] v@[i]),
        r < to ==> is_exp_marker(v@[r as int]),
{
    let mut i = from;
    while i < to && !(v[i] == 'e' || v[i] == 'E')
        invariant
            from <= i <= to <= v.len(),
            forall|j: int| from <= j < i ==> !is_exp_marker(#[trigger] v@[j]),
        decreases to - i,
    {
        i = i + 1;
    }
    i
}

proof fn lemma_mantissa_chars(m: Seq<char>, i: int)
    requires
        is_mantissa(m),
        0 <= i < m.len(),
    ensures
        is_ascii_digit(m[i]) || m[i] == '.',
{
    let k = choose|k: int|
        #![trigger m.take(k)]
        0 <= k <= m.len() && all_ascii_digits(m.take(k)) && if k == m.len() {
            k >= 1
        } else {
            m[k] == '.' && all_ascii_digits(m.skip(k + 1)) && m.len() >= 2
        };
    if i < k {
        assert(m.take(k)[i] == m[i]);
    } else if i > k {
        assert(m.skip(k + 1)[i - k - 1] == m[i]);
    }
}

/// Whether `v[from..to]` is `Mantissa Exp?`.
pub fn is_decimal_number_range(v: &Vec<char>, from: usize, to: usize) -> (b: bool)
    requires
        from <= to <= v.len(),
    ensures
        b == is_decimal_number(v@.subrange(from as int, to as int)),
{
    let ghost t = v@.subrange(from as int, to as int);
    let j = find_exp_marker(v, from, to);
    let ghost jj = j - from;
    assert(t.take(jj) == v@.subrange(from as int, j as int));
    let m = is_mantissa_range(v, from, j);
    let ok = if j == to {
        m
    } else {
        assert(t.skip(jj + 1) == v@.subrange(j + 1, to as int));
        assert(t[jj] == v@[j as int]);
        m && is_exponent_range(v, j + 1, to)
    };
    if ok {
        true
    } else {
        assert forall|j2: int| 0 <= j2 <= t.len() implies !(#[trigger] is_mantissa(t.take(j2)) && (j2
            == t.len() || (is_exp_marker(t[j2]) && is_exponent_digits(t.skip(j2 + 1))))) by {
            if j2 < jj {
                assert(t[j2] == v@[from + j2]);
            } else if j2 > jj {
                if is_mantissa(t.take(j2)) {
                    lemma_mantissa_chars(t.take(j2), jj);
                    assert(t.take(j2)[jj] == v@[j as int]);
                }
            }
        }
        false
    }
}

/// Whether `v[from..]` spells `lower` (ASCII letters in either case).
pub fn range_eq_ignore_ascii_case(v: &Vec<char>, from: usize, lower: &Vec<char>) -> (b: bool)
    requires
        from <= v.len(),
        forall|i: int| 0 <= i < lower@.len() ==> 'a' <= #[trigger] lower@[i] <= 'z',
    ensures
        b == eq_ignore_ascii_case(v@.subrange(from as int, v@.len() as int), lower@),
{
    let ghost s = v@.subrange(from as int, v@.len() as int);
    if v.len() - from != lower.len() {
        return false;
    }
    let mut i: usize = 0;
    while i < lower.len()
        invariant
            v.len() - from == lower.len(),
            s == v@.subrange(from as int, v@.len() as int),
            forall|k: int| 0 <= k < lower@.len() ==> 'a' <= #[trigger] lower@[k] <= 'z',
            i <= lower.len(),
            forall|k: int| 0 <= k < i ==> ascii_ci_char(#[trigger] s[k], lower@[k]),
        decreases lower.len() - i,
    {
        let c = v[from + i];
        let l = lower[i];
        assert(s[i as int] == c);
        assert('a' <= l <= 'z');
        let same = c == l || (l as u32) - 32 == (c as u32);
        if !same {
            return false;
        }
        i = i + 1;
    }
    true
}

/// Whether `str::parse::<f64>` accepts the characters `v`.
pub fn is_float_literal_chars(v: &Vec<char>) -> (b: bool)
    ensures
        b == is_float_literal(v@),
{
    let start: usize = if v.len() > 0 && (v[0] == '+' || v[0] == '-') {
        1
    } else {
        0
    };
    assert(strip_sign(v@) == v@.subrange(start as int, v@.len() as int));
    let inf = vec!['i', 'n', 'f'];
    let infinity = vec!['i', 'n', 'f', 'i', 'n', 'i', 't', 'y'];
    let nan = vec!['n', 'a', 'n'];
    assert(inf@ == seq!['i', 'n', 'f']);
    assert(infinity@ == seq!['i', 'n', 'f', 'i', 'n', 'i', 't', 'y']);
    assert(nan@ == seq!['n', 'a', 'n']);
    range_eq_ignore_ascii_case(v, start, &inf) || range_eq_ignore_ascii_case(v, start, &infinity)
        || range_eq_ignore_ascii_case(v, start, &nan) || is_decimal_number_range(v, start, v.len())
}

} // verus!
verus! {

pub open spec fn digit_value(c: char) -> nat {
    (c as u32 - '0' as u32) as nat
}

/// The value of a string of decimal digits (the empty string counts 0).
pub open spec fn digits_value(s: Seq<char>) -> nat
    decreases s.len(),
{
    if s.len() == 0 {
        0
    } else {
        digits_value(s.drop_last()) * 10 + digit_value(s.last())
    }
}

/// What `str::parse::<i32>` gives: an optional `+` or `-` followed by one or
/// more ASCII digits whose value fits in `i32`; anything else is an error.
pub open spec fn spec_parse_i32(s: Seq<char>) -> Option<int> {
    let d = strip_sign(s);
    if d.len() >= 1 && all_ascii_digits(d) {
        let v = if s[0] == '-' {
            -(digits_value(d) as int)
        } else {
            digits_value(d) as int
        };
        if i32::MIN <= v && v <= i32::MAX {
            Some(v)
        } else {
            None
        }
    } else {
        None
    }
}

pub fn digit_of(c: char) -> (d: u64)
    requires
        is_ascii_digit(c),
    ensures
        d == digit_value(c),
        d < 10,
{
    (c as u32 - '0' as u32) as u64
}

/// Parses an `i32` the way `str::parse::<i32>` does.
pub fn parse_i32(s: &str) -> (r: Option<i32>)
    ensures
        match r {
            Some(v) => spec_parse_i32(s@) == Some(v as int),
            None => spec_parse_i32(s@) is None,
        },
{
    let v = crate::text::chars_of(s);
    let start: usize = if v.len() > 0 && (v[0] == '+' || v[0] == '-') {
        1
    } else {
        0
    };
    let ghost d = v@.subrange(start as int, v@.len() as int);
    assert(strip_sign(v@) == d);
    if start >= v.len() {
        return None;
    }
    let cap: u64 = 0x1_0000_0000;
    let mut acc: u64 = 0;
    let mut i = start;
    while i < v.len()
        invariant
            start <= i <= v.len(),
            start < v.len(),
            v@ == s@,
            strip_sign(v@) == d,
            start == 0 ==> !(v@.len() > 0 && is_sign(v@[0])),
            start == 1 ==> (v@.len() > 0 && is_sign(v@[0])),
            d == v@.subrange(start as int, v@.len() as int),
            cap == 0x1_0000_0000,
            all_ascii_digits(v@.subrange(start as int, i as int)),
            acc == if digits_value(v@.subrange(start as int, i as int)) < cap {
                digits_value(v@.subrange(start as int, i as int))
            } else {
                cap as nat
            },
        decreases v.len() - i,
    {
        let c = v[i];
        if !char_is_ascii_digit(c) {
            assert(d[i - start] == c);
            assert(!is_ascii_digit(d[i - start]));
            assert(!all_ascii_digits(d));
            assert(strip_sign(s@) == d);
            assert(spec_parse_i32(s@) is None);
            return None;
        }
        let ghost prefix = v@.subrange(start as int, i as int);
        let ghost next = v@.subrange(start as int, i + 1);
        assert(next.drop_last() == prefix);
        assert(next.last() == c);
        let dig = digit_of(c);
        acc = if acc >= cap {
            cap
        } else {
            let n = acc * 10 + dig;
            if n >= cap {
                cap
            } else {
                n
            }
        };
        assert(next == prefix.push(c));
        i = i + 1;
    }
    assert(v@.subrange(start as int, i as int) == d);
    if v[0] == '-' {
        if acc <= 0x8000_0000 {
            Some((0 - (acc as i64)) as i32)
        } else {
            None
        }
    } else {
        if acc <= 0x7fff_ffff {
            Some(acc as i32)
        } else {
            None
        }
    }
}

pub open spec fn digit_char(d: nat) -> char {
    (d + '0' as u32) as char
}

/// The decimal digits of `n`, most significant first, without leading zeros
/// (`0` is written `"0"`).
pub open spec fn decimal_digits(n: nat) -> Seq<char>
    decreases n,
{
    if n < 10 {
        seq![digit_char(n)]
    } else {
        decimal_digits(n / 10).push(digit_char(n % 10))
    }
}

pub fn digit_char_of(d: u64) -> (c: char)
    requires
        d < 10,
    ensures
        c == digit_char(d as nat),
{
    match d {
        0 => '0',
        1 => '1',
        2 => '2',
        3 => '3',
        4 => '4',
        5 => '5',
        6 => '6',
        7 => '7',
        8 => '8',
        _ => '9',
    }
}

/// Appends the decimal digits of `n` to `out`.
pub fn push_decimal_digits(n: u64, out: &mut Vec<char>)
    ensures
        final(out)@ == old(out)@ + decimal_digits(n as nat),
    decreases n,
{
    if n < 10 {
        out.push(digit_char_of(n));
        assert(decimal_digits(n as nat) == seq![digit_char(n as nat)]);
    } else {
        push_decimal_digits(n / 10, out);
        out.push(digit_char_of(n % 10));
    }
}

pub proof fn lemma_decimal_digits_are_digits(n: nat)
    ensures
        decimal_digits(n).len() >= 1,
        all_ascii_digits(decimal_digits(n)),
    decreases n,
{
    if n >= 10 {
        lemma_decimal_digits_are_digits(n / 10);
        let p = decimal_digits(n / 10);
        assert forall|i: int| 0 <= i < decimal_digits(n).len() implies is_ascii_digit(
            #[trigger] decimal_digits(n)[i],
        ) by {
            if i < p.len() {
                assert(decimal_digits(n)[i] == p[i]);
            }
        }
    }
}

} // verus!

verus! {

/// The decimal text of an integer: a `-` before the digits of a negative
/// one.
pub open spec fn spec_int_text(i: int) -> Seq<char> {
    if i < 0 {
        seq!['-'] + decimal_digits((-i) as nat)
    } else {
        decimal_digits(i as nat)
    }
}

/// Writes an `i32` in decimal, as `Display` (and JSON) write it.
pub fn int_text(i: i32) -> (r: String)
    ensures
        r@ == spec_int_text(i as int),
{
    let mut v: Vec<char> = Vec::new();
    if i < 0 {
        v.push('-');
        let magnitude: u64 = (-(i as i64)) as u64;
        push_decimal_digits(magnitude, &mut v);
        assert(v@ == seq!['-'] + decimal_digits((-i) as nat));
    } else {
        push_decimal_digits(i as u64, &mut v);
        assert(v@ == decimal_digits(i as nat));
    }
    crate::text::string_from_chars(&v)
}

} // verus!
verus! {

/// What `serde_json::Number::as_u64` then a conversion to `u32` gives for a
/// JSON number's text: one or more ASCII digits whose value fits in `u32`.
pub open spec fn spec_u32_of_number(s: Seq<char>) -> Option<nat> {
    if s.len() >= 1 && all_ascii_digits(s) && digits_value(s) <= u32::MAX {
        Some(digits_value(s))
    } else {
        None
    }
}

/// Reads a JSON number's text as a `u32` (see `spec_u32_of_number`).
pub fn u32_of_number(s: &str) -> (r: Option<u32>)
    ensures
        match r {
            Some(v) => spec_u32_of_number(s@) == Some(v as nat),
            None => spec_u32_of_number(s@) is None,
        },
{
    let v = crate::text::chars_of(s);
    if v.len() == 0 {
        return None;
    }
    let cap: u64 = 0x1_0000_0000;
    let mut acc: u64 = 0;
    let mut i: usize = 0;
    while i < v.len()
        invariant
            i <= v.len(),
            v@ == s@,
            cap == 0x1_0000_0000,
            all_ascii_digits(v@.subrange(0, i as int)),
            acc == if digits_value(v@.subrange(0, i as int)) < cap {
                digits_value(v@.subrange(0, i as int))
            } else {
                cap as nat
            },
        decreases v.len() - i,
    {
        let c = v[i];
        if !char_is_ascii_digit(c) {
            assert(!is_ascii_digit(v@[i as int]));
            return None;
        }
        let ghost prefix = v@.subrange(0, i as int);
        let ghost next = v@.subrange(0, i + 1);
        assert(next.drop_last() == prefix);
        assert(next.last() == c);
        let dig = digit_of(c);
        acc = if acc >= cap {
            cap
        } else {
            let n = acc * 10 + dig;
            if n >= cap {
                cap
            } else {
                n
            }
        };
        assert(next == prefix.push(c));
        i = i + 1;
    }
    assert(v@.subrange(0, i as int) == v@);
    if acc <= 0xffff_ffff {
        Some(acc as u32)
    } else {
        None
    }
}

} // verus!
