//! Decimal digits and small text helpers.

use vstd::prelude::*;
use vstd::string::*;

verus! {

/// The character of a decimal digit.
pub open spec fn digit_char(d: nat) -> char {
    if d == 0 { '0' } else if d == 1 { '1' } else if d == 2 { '2' } else if d == 3 { '3' }
    else if d == 4 { '4' } else if d == 5 { '5' } else if d == 6 { '6' } else if d == 7 { '7' }
    else if d == 8 { '8' } else { '9' }
}

/// The shortest decimal notation of `n`.
pub open spec fn decimal_text(n: nat) -> Seq<char>
    decreases n,
{
    if n < 10 {
        seq![digit_char(n)]
    } else {
        decimal_text(n / 10).push(digit_char(n % 10))
    }
}


/// The one-character text of the decimal digit `d`.
fn digit_str(d: u64) -> (s: &'static str)
    requires
        d < 10,
    ensures
        s@ == seq![digit_char(d as nat)],
{
    let s = if d == 0 { "0" } else if d == 1 { "1" } else if d == 2 { "2" } else if d == 3 { "3" }
        else if d == 4 { "4" } else if d == 5 { "5" } else if d == 6 { "6" } else if d == 7 { "7" }
        else if d == 8 { "8" } else { "9" };
    proof {
        reveal_strlit("0"); reveal_strlit("1"); reveal_strlit("2"); reveal_strlit("3");
        reveal_strlit("4"); reveal_strlit("5"); reveal_strlit("6"); reveal_strlit("7");
        reveal_strlit("8"); reveal_strlit("9");
    }
    s
}

/// Appends the decimal notation of `n` to `out`.
pub fn push_decimal(out: &mut String, n: u64)
    ensures
        final(out)@ == old(out)@ + decimal_text(n as nat),
    decreases n,
{
    if n >= 10 {
        push_decimal(out, n / 10);
    }
    out.append(digit_str(n % 10));
    proof {
        if n >= 10 {
            assert(decimal_text(n as nat) == decimal_text((n / 10) as nat).push(digit_char((n % 10) as nat)));
        }
    }
}


/// The characters of `s`, one by one.
pub fn chars_of(s: &str) -> (v: Vec<char>)
    ensures
        v@ == s@,
{
    let n: usize = s.unicode_len();
    let mut v: Vec<char> = Vec::new();
    let mut i: usize = 0;
    while i < n
        invariant
            n == s@.len(),
            i <= n,
            v@ == s@.subrange(0, i as int),
        decreases n - i,
    {
        v.push(s.get_char(i));
        i = i + 1;
    }
    v
}

/// An ASCII decimal digit.
pub open spec fn is_digit(c: char) -> bool {
    '0' <= c && c <= '9'
}

/// The value of the ASCII decimal digit `c`.
pub open spec fn digit_value(c: char) -> nat {
    ((c as int) - ('0' as int)) as nat
}

/// Every character of `s` is an ASCII decimal digit.
pub open spec fn all_digits(s: Seq<char>) -> bool {
    forall|i: int| 0 <= i < s.len() ==> #[trigger] is_digit(s[i])
}

/// The number that the decimal digits `s` spell out (leading zeros allowed).
pub open spec fn digits_value(s: Seq<char>) -> nat
    decreases s.len(),
{
    if s.len() == 0 {
        0
    } else {
        digits_value(s.drop_last()) * 10 + digit_value(s.last())
    }
}

/// `s` without one leading `+`, if it has one.
pub open spec fn strip_plus(s: Seq<char>) -> Seq<char> {
    if s.len() > 0 && s[0] == '+' { s.drop_first() } else { s }
}

/// What parsing `s` as an unsigned integer of at most `max` gives: an optional `+`
/// followed by one or more ASCII digits whose value is at most `max`; anything else
/// (empty text, a sign alone, `-`, whitespace, overflow) is refused.
pub open spec fn unsigned_value(s: Seq<char>, max: nat) -> Option<nat> {
    let d = strip_plus(s);
    if d.len() > 0 && all_digits(d) && digits_value(d) <= max {
        Some(digits_value(d))
    } else {
        None
    }
}

fn is_digit_char(c: char) -> (b: bool)
    ensures
        b == is_digit(c),
{
    '0' <= c && c <= '9'
}

/// Parses `s` as an unsigned decimal integer of at most `max`, the way `str::parse`
/// does for Rust's unsigned integer types.
pub fn parse_unsigned(s: &str, max: u64) -> (r: Option<u64>)
    requires
        max <= u32::MAX,
    ensures
        match unsigned_value(s@, max as nat) {
            Some(n) => r == Some(n as u64),
            None => r is None,
        },
{
    let v = chars_of(s);
    let len: usize = v.len();
    let start: usize = if len > 0 && v[0] == '+' { 1 } else { 0 };
    let ghost d = strip_plus(s@);
    assert(d =~= v@.subrange(start as int, len as int));
    if start == len {
        return None;
    }
    let mut acc: u64 = 0;
    let mut i: usize = start;
    while i < len
        invariant
            v@ == s@,
            len == v@.len(),
            start <= i <= len,
            d == v@.subrange(start as int, len as int),
            d == strip_plus(s@),
            max <= u32::MAX,
            all_digits(v@.subrange(start as int, i as int)),
            acc == if digits_value(v@.subrange(start as int, i as int)) <= max {
                digits_value(v@.subrange(start as int, i as int))
            } else {
                max as nat + 1
            },
        decreases len - i,
    {
        let c = v[i];
        if !is_digit_char(c) {
            assert(d[i - start] == c && !is_digit(d[i - start]));
            return None;
        }
        let dv: u64 = (c as u64) - ('0' as u64);
        let ghost prev = v@.subrange(start as int, i as int);
        let ghost next = v@.subrange(start as int, i + 1);
        assert(next.drop_last() =~= prev);
        assert(digits_value(next) == digits_value(prev) * 10 + dv);
        let t: u64 = acc * 10 + dv;
        acc = if t > max { max + 1 } else { t };
        i = i + 1;
    }
    if acc > max {
        None
    } else {
        Some(acc)
    }
}


/// A leading sign character.
pub open spec fn is_sign(c: char) -> bool {
    c == '+' || c == '-'
}

/// `s` without one leading `+` or `-`, if it has one.
pub open spec fn strip_sign(s: Seq<char>) -> Seq<char> {
    if s.len() > 0 && is_sign(s[0]) { s.drop_first() } else { s }
}

/// The position of the first `a` or `b` in `s`, or its length when there is none.
pub open spec fn first_of(s: Seq<char>, a: char, b: char) -> nat
    decreases s.len(),
{
    if s.len() == 0 {
        0
    } else if s[0] == a || s[0] == b {
        0
    } else {
        1 + first_of(s.drop_first(), a, b)
    }
}

/// `c` equals the lower-case ASCII character `l`, or is its upper-case form.
pub open spec fn ci_char_eq(c: char, l: char) -> bool {
    c == l || ('a' <= l && l <= 'z' && (c as u32) + 32 == (l as u32))
}

/// `s` spells `word` (written in lower case) ignoring ASCII case. For such a word this
/// is exactly `s.to_lowercase() == word`: no other character lower-cases to an ASCII letter
/// of the words this crate compares with.
pub open spec fn ascii_ci_eq(s: Seq<char>, word: Seq<char>) -> bool {
    &&& s.len() == word.len()
    &&& forall|i: int| 0 <= i < s.len() ==> #[trigger] ci_char_eq(s[i], word[i])
}

/// The digits of a decimal number before its exponent: `D+`, `D+ '.' D*` or `D* '.' D+`.
pub open spec fn is_mantissa(m: Seq<char>) -> bool {
    let p = first_of(m, '.', '.');
    if p == m.len() {
        m.len() > 0 && all_digits(m)
    } else {
        m.len() > 1 && all_digits(m.take(p as int)) && all_digits(m.skip(p + 1 as int))
    }
}

/// The part of an exponent after its `e`: an optional sign and one or more digits.
pub open spec fn is_exponent_digits(t: Seq<char>) -> bool {
    strip_sign(t).len() > 0 && all_digits(strip_sign(t))
}

/// A mantissa, then optionally `e` or `E` and an exponent.
pub open spec fn is_decimal_number(b: Seq<char>) -> bool {
    let k = first_of(b, 'e', 'E');
    is_mantissa(b.take(k as int)) && (k == b.len() || is_exponent_digits(b.skip(k + 1 as int)))
}

/// The texts that `str::parse::<f64>` accepts, as its documentation gives the grammar:
/// an optional sign, then `inf`, `infinity` or `nan` in any ASCII case, or a decimal
/// number. Whitespace anywhere is refused.
pub open spec fn is_float_literal(s: Seq<char>) -> bool {
    let b = strip_sign(s);
    ||| ascii_ci_eq(b, seq!['i', 'n', 'f'])
    ||| ascii_ci_eq(b, seq!['i', 'n', 'f', 'i', 'n', 'i', 't', 'y'])
    ||| ascii_ci_eq(b, seq!['n', 'a', 'n'])
    ||| is_decimal_number(b)
}

pub(crate) proof fn lemma_first_of(s: Seq<char>, a: char, b: char, i: int)
    requires
        0 <= i <= s.len(),
        forall|j: int| 0 <= j < i ==> s[j] != a && s[j] != b,
        i == s.len() || s[i] == a || s[i] == b,
    ensures
        first_of(s, a, b) == i,
    decreases i,
{
    if i > 0 {
        lemma_first_of(s.drop_first(), a, b, i - 1);
    }
}

/// The position, counted from `lo`, of the first `a` or `b` in `v[lo..hi]`.
fn find_first(v: &Vec<char>, lo: usize, hi: usize, a: char, b: char) -> (r: usize)
    requires
        lo <= hi <= v@.len(),
    ensures
        r <= hi - lo,
        r == first_of(v@.subrange(lo as int, hi as int), a, b),
{
    let mut i: usize = lo;
    while i < hi && v[i] != a && v[i] != b
        invariant
            lo <= i <= hi <= v@.len(),
            forall|j: int| lo <= j < i ==> v@[j] != a && v@[j] != b,
        decreases hi - i,
    {
        i = i + 1;
    }
    proof {
        let s = v@.subrange(lo as int, hi as int);
        assert forall|j: int| 0 <= j < i - lo implies s[j] != a && s[j] != b by {
            assert(s[j] == v@[lo + j]);
        }
        if i < hi {
            assert(s[i - lo] == v@[i as int]);
        }
        lemma_first_of(s, a, b, (i - lo) as int);
    }
    i - lo
}

/// Whether `v[lo..hi]` is all ASCII digits.
fn digits_only(v: &Vec<char>, lo: usize, hi: usize) -> (r: bool)
    requires
        lo <= hi <= v@.len(),
    ensures
        r == all_digits(v@.subrange(lo as int, hi as int)),
{
    let mut i: usize = lo;
    while i < hi
        invariant
            lo <= i <= hi <= v@.len(),
            forall|j: int| lo <= j < i ==> is_digit(v@[j]),
        decreases hi - i,
    {
        if !is_digit_char(v[i]) {
            assert(v@.subrange(lo as int, hi as int)[i - lo] == v@[i as int]);
            return false;
        }
        i = i + 1;
    }
    assert forall|j: int| 0 <= j < hi - lo implies #[trigger] is_digit(v@.subrange(lo as int, hi as int)[j]) by {
        assert(v@.subrange(lo as int, hi as int)[j] == v@[lo + j]);
    }
    true
}

fn ci_char_matches(c: char, l: char) -> (r: bool)
    ensures
        r == ci_char_eq(c, l),
{
    c == l || ('a' <= l && l <= 'z' && (c as u32) + 32 == (l as u32))
}

/// Whether `v[lo..hi]` spells `word` ignoring ASCII case.
fn ci_matches(v: &Vec<char>, lo: usize, hi: usize, word: &str) -> (r: bool)
    requires
        lo <= hi <= v@.len(),
    ensures
        r == ascii_ci_eq(v@.subrange(lo as int, hi as int), word@),
{
    let n: usize = word.unicode_len();
    if hi - lo != n {
        return false;
    }
    let mut i: usize = 0;
    while i < n
        invariant
            lo <= hi <= v@.len(),
            n == word@.len(),
            hi - lo == n,
            i <= n,
            forall|j: int| 0 <= j < i ==> ci_char_eq(v@[lo + j], word@[j]),
        decreases n - i,
    {
        if !ci_char_matches(v[lo + i], word.get_char(i)) {
            assert(v@.subrange(lo as int, hi as int)[i as int] == v@[lo + i]);
            return false;
        }
        i = i + 1;
    }
    assert forall|j: int| 0 <= j < hi - lo implies #[trigger] ci_char_eq(v@.subrange(lo as int, hi as int)[j], word@[j]) by {
        assert(v@.subrange(lo as int, hi as int)[j] == v@[lo + j]);
    }
    true
}

/// Whether the whole of `s` spells `word` ignoring ASCII case.
pub fn equals_ignoring_ascii_case(s: &str, word: &str) -> (r: bool)
    ensures
        r == ascii_ci_eq(s@, word@),
{
    let v = chars_of(s);
    assert(v@.subrange(0, v@.len() as int) =~= v@);
    ci_matches(&v, 0, v.len(), word)
}

/// Whether `v[lo..hi]` is a mantissa.
fn mantissa_at(v: &Vec<char>, lo: usize, hi: usize) -> (r: bool)
    requires
        lo <= hi <= v@.len(),
    ensures
        r == is_mantissa(v@.subrange(lo as int, hi as int)),
{
    let ghost m = v@.subrange(lo as int, hi as int);
    let p: usize = find_first(v, lo, hi, '.', '.');
    if p == hi - lo {
        hi > lo && digits_only(v, lo, hi)
    } else {
        assert(m.take(p as int) =~= v@.subrange(lo as int, lo + p));
        assert(m.skip(p + 1 as int) =~= v@.subrange(lo + p + 1, hi as int));
        hi - lo > 1 && digits_only(v, lo, lo + p) && digits_only(v, lo + p + 1, hi)
    }
}

/// Whether `v[lo..hi]` is an optional sign followed by one or more digits.
fn exponent_digits_at(v: &Vec<char>, lo: usize, hi: usize) -> (r: bool)
    requires
        lo <= hi <= v@.len(),
    ensures
        r == is_exponent_digits(v@.subrange(lo as int, hi as int)),
{
    let ghost t = v@.subrange(lo as int, hi as int);
    let start: usize = if lo < hi && (v[lo] == '+' || v[lo] == '-') { lo + 1 } else { lo };
    assert(strip_sign(t) =~= v@.subrange(start as int, hi as int));
    start < hi && digits_only(v, start, hi)
}

/// Whether `s` is a text that `str::parse::<f64>` accepts.
pub fn is_float_text(s: &str) -> (r: bool)
    ensures
        r == is_float_literal(s@),
{
    let v = chars_of(s);
    let hi: usize = v.len();
    let lo: usize = if hi > 0 && (v[0] == '+' || v[0] == '-') { 1 } else { 0 };
    let ghost b = strip_sign(s@);
    assert(b =~= v@.subrange(lo as int, hi as int));
    let inf = "inf";
    let infinity = "infinity";
    let nan = "nan";
    proof {
        reveal_strlit("inf");
        reveal_strlit("infinity");
        reveal_strlit("nan");
        assert(inf@ =~= seq!['i', 'n', 'f']);
        assert(infinity@ =~= seq!['i', 'n', 'f', 'i', 'n', 'i', 't', 'y']);
        assert(nan@ =~= seq!['n', 'a', 'n']);
    }
    if ci_matches(&v, lo, hi, inf) || ci_matches(&v, lo, hi, infinity) || ci_matches(&v, lo, hi, nan) {
        return true;
    }
    let k: usize = find_first(&v, lo, hi, 'e', 'E');
    assert(b.take(k as int) =~= v@.subrange(lo as int, lo + k));
    if !mantissa_at(&v, lo, lo + k) {
        return false;
    }
    if lo + k == hi {
        true
    } else {
        assert(b.skip(k + 1 as int) =~= v@.subrange(lo + k + 1, hi as int));
        exponent_digits_at(&v, lo + k + 1, hi)
    }
}


/// A non-empty run of ASCII digits is a number that `str::parse::<f64>` accepts.
pub proof fn lemma_digits_are_float_literal(s: Seq<char>)
    requires
        s.len() > 0,
        all_digits(s),
    ensures
        is_float_literal(s),
{
    assert(is_digit(s[0]));
    assert(strip_sign(s) == s);
    assert forall|j: int| 0 <= j < s.len() implies s[j] != 'e' && s[j] != 'E' by {
        assert(is_digit(s[j]));
    }
    lemma_first_of(s, 'e', 'E', s.len() as int);
    assert forall|j: int| 0 <= j < s.len() implies s[j] != '.' && s[j] != '.' by {
        assert(is_digit(s[j]));
    }
    lemma_first_of(s, '.', '.', s.len() as int);
    assert(s.take(s.len() as int) =~= s);
}


proof fn lemma_digit_char(d: nat)
    requires
        d < 10,
    ensures
        is_digit(digit_char(d)),
        digit_value(digit_char(d)) == d,
{
}

pub(crate) proof fn lemma_decimal_text_digits(n: nat)
    ensures
        decimal_text(n).len() > 0,
        all_digits(decimal_text(n)),
        digits_value(decimal_text(n)) == n,
    decreases n,
{
    lemma_digit_char(n % 10);
    if n < 10 {
        assert(decimal_text(n).drop_last() =~= Seq::<char>::empty());
        assert(digits_value(Seq::<char>::empty()) == 0);
        assert(n % 10 == n);
    } else {
        lemma_decimal_text_digits(n / 10);
        let t = decimal_text(n);
        assert(t.drop_last() =~= decimal_text(n / 10));
        assert(n == (n / 10) * 10 + n % 10);
        assert(digits_value(t) == digits_value(t.drop_last()) * 10 + digit_value(t.last()));
        assert forall|i: int| 0 <= i < t.len() implies #[trigger] is_digit(t[i]) by {
            if i < t.len() - 1 {
                assert(t[i] == decimal_text(n / 10)[i]);
            }
        }
    }
}

/// Printing and parsing agree: the decimal text that `push_decimal` writes for `n`
/// parses back to `n` with any bound at least `n`.
pub proof fn lemma_decimal_round_trip(n: nat, max: nat)
    requires
        n <= max,
    ensures
        unsigned_value(decimal_text(n), max) == Some(n),
{
    lemma_decimal_text_digits(n);
    let t = decimal_text(n);
    assert(is_digit(t[0]));
    assert(strip_plus(t) == t);
}


proof fn lemma_first_of_props(s: Seq<char>, a: char, b: char)
    ensures
        first_of(s, a, b) <= s.len(),
        first_of(s, a, b) < s.len() ==> (s[first_of(s, a, b) as int] == a || s[first_of(s, a, b) as int] == b),
        forall|j: int| 0 <= j < first_of(s, a, b) ==> s[j] != a && s[j] != b,
    decreases s.len(),
{
    if s.len() > 0 && s[0] != a && s[0] != b {
        lemma_first_of_props(s.drop_first(), a, b);
        assert forall|j: int| 0 <= j < first_of(s, a, b) implies s[j] != a && s[j] != b by {
            if j > 0 {
                assert(s[j] == s.drop_first()[j - 1]);
            }
        }
    }
}

/// The texts of the grammar of `str::parse::<f64>` built from digits are accepted: an
/// optional sign, digits `a`, optionally `.` and digits `b` (with at least one digit in
/// all), and optionally `e` or `E`, an optional sign and one or more digits `d`.
pub proof fn lemma_float_grammar_accepts(
    sign: Seq<char>,
    a: Seq<char>,
    frac: Option<Seq<char>>,
    exponent: Option<(char, Seq<char>, Seq<char>)>,
)
    requires
        sign.len() <= 1,
        sign.len() == 1 ==> is_sign(sign[0]),
        all_digits(a),
        match frac {
            Some(b) => all_digits(b) && a.len() + b.len() > 0,
            None => a.len() > 0,
        },
        exponent matches Some((e, es, d)) ==> (e == 'e' || e == 'E') && es.len() <= 1
            && (es.len() == 1 ==> is_sign(es[0])) && d.len() > 0 && all_digits(d),
    ensures
        is_float_literal(sign + a + match frac {
            Some(b) => seq!['.'] + b,
            None => Seq::<char>::empty(),
        } + match exponent {
            Some((e, es, d)) => seq![e] + es + d,
            None => Seq::<char>::empty(),
        }),
{
    let dot = match frac {
        Some(b) => seq!['.'] + b,
        None => Seq::<char>::empty(),
    };
    let ex = match exponent {
        Some((e, es, d)) => seq![e] + es + d,
        None => Seq::<char>::empty(),
    };
    let m = a + dot;
    let x = m + ex;
    let s = sign + a + dot + ex;
    assert(s =~= sign + x);
    // The mantissa holds digits and at most one dot, no exponent marker.
    assert forall|j: int| 0 <= j < m.len() implies m[j] != 'e' && m[j] != 'E' && (is_digit(m[j]) || m[j] == '.') by {
        if j < a.len() {
            assert(m[j] == a[j]);
            assert(is_digit(a[j]));
        } else if j > a.len() {
            let b = frac->0;
            assert(m[j] == b[j - a.len() - 1]);
            assert(is_digit(b[j - a.len() - 1]));
        }
    }
    assert(x.len() > 0);
    if a.len() > 0 {
        assert(x[0] == a[0] && is_digit(a[0]));
    } else {
        assert(x[0] == '.');
    }
    if sign.len() == 1 {
        assert(s[0] == sign[0]);
        assert(strip_sign(s) =~= x);
    } else {
        assert(s =~= x);
        assert(strip_sign(s) == x);
    }
    // The exponent marker is the first `e` or `E`.
    if let Some((e, es, d)) = exponent {
        assert(x[m.len() as int] == e);
    } else {
        assert(x =~= m);
    }
    assert forall|j: int| 0 <= j < m.len() implies x[j] != 'e' && x[j] != 'E' by {
        assert(x[j] == m[j]);
    }
    lemma_first_of(x, 'e', 'E', m.len() as int);
    assert(x.take(m.len() as int) =~= m);
    // The mantissa is well formed.
    match frac {
        Some(b) => {
            assert forall|j: int| 0 <= j < a.len() implies m[j] != '.' && m[j] != '.' by {
                assert(m[j] == a[j] && is_digit(a[j]));
            }
            assert(m[a.len() as int] == '.');
            lemma_first_of(m, '.', '.', a.len() as int);
            assert(m.take(a.len() as int) =~= a);
            assert(m.skip(a.len() + 1 as int) =~= b);
        },
        None => {
            assert(m =~= a);
            assert forall|j: int| 0 <= j < m.len() implies m[j] != '.' && m[j] != '.' by {
                assert(is_digit(a[j]));
            }
            lemma_first_of(m, '.', '.', m.len() as int);
        },
    }
    // The exponent's digits.
    match exponent {
        Some((e, es, d)) => {
            let t = es + d;
            assert(x.skip(m.len() + 1 as int) =~= t);
            if es.len() == 1 {
                assert(t[0] == es[0]);
                assert(strip_sign(t) =~= d);
            } else {
                assert(t =~= d);
                assert(is_digit(d[0]));
                assert(strip_sign(t) == d);
            }
        },
        None => {},
    }
}

/// The characters that can occur in a text that `str::parse::<f64>` accepts.
pub open spec fn in_float_alphabet(c: char) -> bool {
    ||| is_digit(c)
    ||| is_sign(c)
    ||| c == '.'
    ||| c == 'e'
    ||| c == 'E'
    ||| ci_char_eq(c, 'i')
    ||| ci_char_eq(c, 'n')
    ||| ci_char_eq(c, 'f')
    ||| ci_char_eq(c, 't')
    ||| ci_char_eq(c, 'y')
    ||| ci_char_eq(c, 'a')
}

proof fn lemma_word_letters(b: Seq<char>, w: Seq<char>, j: int)
    requires
        ascii_ci_eq(b, w),
        0 <= j < b.len(),
        forall|k: int| 0 <= k < w.len() ==> #[trigger] w[k] == 'i' || w[k] == 'n' || w[k] == 'f'
            || w[k] == 't' || w[k] == 'y' || w[k] == 'a',
    ensures
        in_float_alphabet(b[j]),
{
    assert(ci_char_eq(b[j], w[j]));
    assert(w[j] == 'i' || w[j] == 'n' || w[j] == 'f' || w[j] == 't' || w[j] == 'y' || w[j] == 'a');
}

/// A text holding a character that no number, infinity or NaN literal can hold (such as
/// whitespace, `,` or `x`) is refused.
pub proof fn lemma_float_rejects_foreign_chars(s: Seq<char>, i: int)
    requires
        0 <= i < s.len(),
        !in_float_alphabet(s[i]),
    ensures
        !is_float_literal(s),
{
    let b = strip_sign(s);
    let j = if s.len() > 0 && is_sign(s[0]) { i - 1 } else { i };
    if s.len() > 0 && is_sign(s[0]) {
        assert(i != 0);
        assert(b[j] == s[i]);
    }
    assert(0 <= j < b.len() && b[j] == s[i]);
    let w1 = seq!['i', 'n', 'f'];
    let w2 = seq!['i', 'n', 'f', 'i', 'n', 'i', 't', 'y'];
    let w3 = seq!['n', 'a', 'n'];
    if ascii_ci_eq(b, w1) {
        lemma_word_letters(b, w1, j);
    }
    if ascii_ci_eq(b, w2) {
        lemma_word_letters(b, w2, j);
    }
    if ascii_ci_eq(b, w3) {
        lemma_word_letters(b, w3, j);
    }
    if is_decimal_number(b) {
        let k = first_of(b, 'e', 'E');
        lemma_first_of_props(b, 'e', 'E');
        let m = b.take(k as int);
        if j < k {
            assert(m[j] == b[j]);
            let p = first_of(m, '.', '.');
            lemma_first_of_props(m, '.', '.');
            if p == m.len() {
                assert(is_digit(m[j]));
            } else if j < p {
                assert(m.take(p as int)[j] == m[j]);
                assert(is_digit(m.take(p as int)[j]));
            } else if j > p {
                assert(m.skip(p + 1 as int)[j - p - 1] == m[j]);
                assert(is_digit(m.skip(p + 1 as int)[j - p - 1]));
            }
        } else if j > k {
            let t = b.skip(k + 1 as int);
            assert(t[j - k - 1] == b[j]);
            if t.len() > 0 && is_sign(t[0]) {
                if j - k - 1 > 0 {
                    assert(strip_sign(t)[j - k - 2] == t[j - k - 1]);
                    assert(is_digit(strip_sign(t)[j - k - 2]));
                }
            } else {
                assert(strip_sign(t) == t);
                assert(is_digit(t[j - k - 1]));
            }
        }
    }
}

/// A text with a character other than an ASCII digit, beyond one leading `+`, is not an
/// unsigned number, whatever the bound.
pub proof fn lemma_unsigned_rejects_non_digit(s: Seq<char>, max: nat, i: int)
    requires
        0 <= i < s.len(),
        !is_digit(s[i]),
        !(i == 0 && s[i] == '+'),
    ensures
        unsigned_value(s, max) is None,
{
    let d = strip_plus(s);
    if s.len() > 0 && s[0] == '+' {
        assert(d[i - 1] == s[i]);
    } else {
        assert(d[i] == s[i]);
    }
}

/// A number above the bound is refused, however it is written.
pub proof fn lemma_unsigned_within_bound(s: Seq<char>, max: nat)
    ensures
        unsigned_value(s, max) is Some ==> unsigned_value(s, max)->0 <= max,
{
}

/// `k` zeros.
pub open spec fn zeros(k: nat) -> Seq<char> {
    Seq::new(k, |i: int| '0')
}

proof fn lemma_zeros_value(k: nat)
    ensures
        all_digits(zeros(k)),
        digits_value(zeros(k)) == 0,
    decreases k,
{
    if k > 0 {
        lemma_zeros_value((k - 1) as nat);
        assert(zeros(k).drop_last() =~= zeros((k - 1) as nat));
        assert(digit_value('0') == 0);
    } else {
        assert(zeros(k) =~= Seq::<char>::empty());
    }
}

proof fn lemma_leading_zeros_value(k: nat, t: Seq<char>)
    ensures
        digits_value(zeros(k) + t) == digits_value(t),
    decreases t.len(),
{
    if t.len() == 0 {
        assert(zeros(k) + t =~= zeros(k));
        lemma_zeros_value(k);
    } else {
        lemma_leading_zeros_value(k, t.drop_last());
        assert((zeros(k) + t).drop_last() =~= zeros(k) + t.drop_last());
        assert((zeros(k) + t).last() == t.last());
    }
}

/// The digits and value of an optional `+`, `k` zeros and the decimal text of `n`.
proof fn lemma_padded_decimal(plus: bool, k: nat, n: nat)
    ensures
        ({
            let s = (if plus { seq!['+'] } else { Seq::<char>::empty() }) + zeros(k) + decimal_text(n);
            &&& strip_plus(s) == zeros(k) + decimal_text(n)
            &&& strip_plus(s).len() > 0
            &&& all_digits(strip_plus(s))
            &&& digits_value(strip_plus(s)) == n
        }),
{
    let d = zeros(k) + decimal_text(n);
    let s = (if plus { seq!['+'] } else { Seq::<char>::empty() }) + zeros(k) + decimal_text(n);
    lemma_decimal_text_digits(n);
    lemma_zeros_value(k);
    lemma_leading_zeros_value(k, decimal_text(n));
    assert forall|i: int| 0 <= i < d.len() implies #[trigger] is_digit(d[i]) by {
        if i < k {
            assert(d[i] == zeros(k)[i]);
        } else {
            assert(d[i] == decimal_text(n)[i - k]);
        }
    }
    if plus {
        assert(s[0] == '+');
        assert(strip_plus(s) =~= d);
    } else {
        assert(s =~= d);
        assert(is_digit(d[0]));
        assert(strip_plus(s) == d);
    }
}

/// Like `str::parse` for unsigned integers, a leading `+` and leading zeros are allowed,
/// and the bound is exact: one optional `+`, any number of zeros, then the decimal text
/// of `n` reads as `n` when `n` is within the bound, and is refused when it is above.
pub proof fn lemma_unsigned_accepts_plus_and_leading_zeros(plus: bool, k: nat, n: nat, max: nat)
    ensures
        n <= max ==> unsigned_value((if plus { seq!['+'] } else { Seq::<char>::empty() }) + zeros(k)
            + decimal_text(n), max) == Some(n),
        n > max ==> unsigned_value((if plus { seq!['+'] } else { Seq::<char>::empty() }) + zeros(k)
            + decimal_text(n), max) is None,
{
    lemma_padded_decimal(plus, k, n);
}

/// A text without any ASCII digit is accepted only as `inf`, `infinity` or `nan`.
pub proof fn lemma_float_without_digits_is_a_word(s: Seq<char>)
    requires
        forall|i: int| 0 <= i < s.len() ==> !is_digit(#[trigger] s[i]),
        is_float_literal(s),
    ensures
        ascii_ci_eq(strip_sign(s), seq!['i', 'n', 'f'])
            || ascii_ci_eq(strip_sign(s), seq!['i', 'n', 'f', 'i', 'n', 'i', 't', 'y'])
            || ascii_ci_eq(strip_sign(s), seq!['n', 'a', 'n']),
{
    let b = strip_sign(s);
    assert forall|i: int| 0 <= i < b.len() implies !is_digit(#[trigger] b[i]) by {
        if s.len() > 0 && is_sign(s[0]) {
            assert(b[i] == s[i + 1]);
        } else {
            assert(b[i] == s[i]);
        }
    }
    if is_decimal_number(b) {
        let k = first_of(b, 'e', 'E');
        lemma_first_of_props(b, 'e', 'E');
        let m = b.take(k as int);
        let p = first_of(m, '.', '.');
        lemma_first_of_props(m, '.', '.');
        if p == m.len() {
            assert(is_digit(m[0]));
            assert(m[0] == b[0]);
        } else if p > 0 {
            assert(is_digit(m.take(p as int)[0]));
            assert(m.take(p as int)[0] == b[0]);
        } else {
            assert(is_digit(m.skip(1)[0]));
            assert(m.skip(1)[0] == b[1]);
        }
    }
}

/// A text with two dots is refused: a number has at most one.
pub proof fn lemma_float_rejects_two_dots(s: Seq<char>, i: int, j: int)
    requires
        0 <= i < j < s.len(),
        s[i] == '.',
        s[j] == '.',
    ensures
        !is_float_literal(s),
{
    let b = strip_sign(s);
    let off: int = if s.len() > 0 && is_sign(s[0]) { 1 } else { 0 };
    let i2 = i - off;
    let j2 = j - off;
    assert(0 <= i2 < j2 < b.len());
    assert(b[i2] == '.' && b[j2] == '.');
    let w1 = seq!['i', 'n', 'f'];
    let w2 = seq!['i', 'n', 'f', 'i', 'n', 'i', 't', 'y'];
    let w3 = seq!['n', 'a', 'n'];
    if ascii_ci_eq(b, w1) {
        assert(ci_char_eq(b[i2], w1[i2]));
    }
    if ascii_ci_eq(b, w2) {
        assert(ci_char_eq(b[i2], w2[i2]));
    }
    if ascii_ci_eq(b, w3) {
        assert(ci_char_eq(b[i2], w3[i2]));
    }
    if is_decimal_number(b) {
        let k = first_of(b, 'e', 'E');
        lemma_first_of_props(b, 'e', 'E');
        let m = b.take(k as int);
        if j2 < k {
            let p = first_of(m, '.', '.');
            lemma_first_of_props(m, '.', '.');
            assert(m[i2] == '.');
            assert(p <= i2);
            assert(m.skip(p + 1 as int)[j2 - p - 1] == m[j2]);
            assert(is_digit(m.skip(p + 1 as int)[j2 - p - 1]));
        } else if j2 > k {
            let t = b.skip(k + 1 as int);
            assert(t[j2 - k - 1] == b[j2]);
            if t.len() > 0 && is_sign(t[0]) {
                assert(j2 - k - 1 > 0);
                assert(strip_sign(t)[j2 - k - 2] == t[j2 - k - 1]);
                assert(is_digit(strip_sign(t)[j2 - k - 2]));
            } else {
                assert(strip_sign(t) == t);
                assert(is_digit(t[j2 - k - 1]));
            }
        }
    }
}

/// Every text matches itself ignoring case, and texts of different lengths never match.
pub proof fn lemma_ascii_ci_eq_basics(s: Seq<char>, w: Seq<char>)
    ensures
        ascii_ci_eq(w, w),
        s.len() != w.len() ==> !ascii_ci_eq(s, w),
        ascii_ci_eq(s, w) ==> forall|i: int| 0 <= i < s.len() ==> s[i] == w[i]
            || ('a' <= w[i] && w[i] <= 'z' && (s[i] as u32) + 32 == (w[i] as u32)),
{
    assert forall|i: int| 0 <= i < w.len() implies #[trigger] ci_char_eq(w[i], w[i]) by {}
    if ascii_ci_eq(s, w) {
        assert forall|i: int| 0 <= i < s.len() implies s[i] == w[i]
            || ('a' <= w[i] && w[i] <= 'z' && (s[i] as u32) + 32 == (w[i] as u32)) by {
            assert(ci_char_eq(s[i], w[i]));
        }
    }
}

/// A text matches a word when each character is the word's or, for a letter, its
/// upper-case form.
pub proof fn lemma_ascii_ci_eq_accepts_upper_case(s: Seq<char>, w: Seq<char>)
    requires
        s.len() == w.len(),
        forall|i: int| 0 <= i < s.len() ==> s[i] == w[i]
            || ('a' <= w[i] && w[i] <= 'z' && (s[i] as u32) + 32 == (w[i] as u32)),
    ensures
        ascii_ci_eq(s, w),
{
    assert forall|i: int| 0 <= i < s.len() implies #[trigger] ci_char_eq(s[i], w[i]) by {}
}

/// `inf`, `infinity` and `nan`, in any ASCII case and with an optional sign, are
/// accepted.
pub proof fn lemma_float_accepts_words(sign: Seq<char>, b: Seq<char>)
    requires
        sign.len() <= 1,
        sign.len() == 1 ==> is_sign(sign[0]),
        ascii_ci_eq(b, seq!['i', 'n', 'f']) || ascii_ci_eq(b, seq!['i', 'n', 'f', 'i', 'n', 'i', 't', 'y'])
            || ascii_ci_eq(b, seq!['n', 'a', 'n']),
    ensures
        is_float_literal(sign + b),
{
    let s = sign + b;
    let w = if ascii_ci_eq(b, seq!['n', 'a', 'n']) { seq!['n', 'a', 'n'] } else { seq!['i', 'n', 'f'] };
    assert(ci_char_eq(b[0], w[0]));
    assert(!is_sign(b[0]));
    if sign.len() == 1 {
        assert(s[0] == sign[0]);
        assert(strip_sign(s) =~= b);
    } else {
        assert(s =~= b);
        assert(strip_sign(s) == b);
    }
}

/// An accepted text ends with a digit, a dot, or the last letter of `inf`, `infinity`
/// or `nan`: a dangling exponent marker or sign (`1e`, `1e+`, `+`) is refused.
pub proof fn lemma_float_ends_well(s: Seq<char>)
    requires
        is_float_literal(s),
    ensures
        s.len() > 0,
        is_digit(s.last()) || s.last() == '.' || ci_char_eq(s.last(), 'f') || ci_char_eq(s.last(), 'y')
            || ci_char_eq(s.last(), 'n'),
{
    let b = strip_sign(s);
    let w1 = seq!['i', 'n', 'f'];
    let w2 = seq!['i', 'n', 'f', 'i', 'n', 'i', 't', 'y'];
    let w3 = seq!['n', 'a', 'n'];
    if ascii_ci_eq(b, w1) {
        assert(ci_char_eq(b[2], w1[2]));
        assert(b.last() == s.last());
    } else if ascii_ci_eq(b, w2) {
        assert(ci_char_eq(b[7], w2[7]));
        assert(b.last() == s.last());
    } else if ascii_ci_eq(b, w3) {
        assert(ci_char_eq(b[2], w3[2]));
        assert(b.last() == s.last());
    } else {
        assert(is_decimal_number(b));
        let k = first_of(b, 'e', 'E');
        lemma_first_of_props(b, 'e', 'E');
        let m = b.take(k as int);
        if k < b.len() {
            let t = b.skip(k + 1 as int);
            let u = strip_sign(t);
            assert(is_digit(u[u.len() - 1]));
            assert(u.last() == t.last());
            assert(t.last() == b.last());
        } else {
            assert(m =~= b);
            let p = first_of(m, '.', '.');
            lemma_first_of_props(m, '.', '.');
            if p == m.len() {
                assert(is_digit(m[m.len() - 1]));
            } else if p + 1 < m.len() {
                let r = m.skip(p + 1 as int);
                assert(is_digit(r[r.len() - 1]));
                assert(r.last() == m.last());
            } else {
                assert(m.last() == m[p as int]);
            }
        }
        assert(b.last() == s.last());
    }
}

} // verus!
