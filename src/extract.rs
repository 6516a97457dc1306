//! Keyword-proximity extraction of decimal numbers from free-form text.
//!
//! A value is taken from the first maximal run of digits `0`-`9`, `.` and `,`
//! that is followed (after optional white space) by one of the keywords of a
//! field, matched without regard to letter case. Either `.` or `,` may
//! separate the decimals. Values are kept in thousandths.
use vstd::prelude::*;
use vstd::string::*;

verus! {

pub open spec fn is_digit(c: char) -> bool {
    '0' <= c && c <= '9'
}

pub open spec fn is_separator(c: char) -> bool {
    c == '.' || c == ','
}

pub open spec fn is_number_char(c: char) -> bool {
    is_digit(c) || is_separator(c)
}

/// Unicode white space, as `\s` of a regular expression reads it.
pub open spec fn is_space(c: char) -> bool {
    c == ' ' || ('\t' <= c && c <= '\r') || c == '\u{85}' || c == '\u{A0}' || c == '\u{1680}'
        || ('\u{2000}' <= c && c <= '\u{200A}') || c == '\u{2028}' || c == '\u{2029}'
        || c == '\u{202F}' || c == '\u{205F}' || c == '\u{3000}'
}

/// Characters a keyword is written with: lower-case Latin and Cyrillic
/// letters, Thai, and CJK ideographs.
pub open spec fn is_keyword_char(c: char) -> bool {
    ('a' <= c && c <= 'z') || ('\u{430}' <= c && c <= '\u{44F}') || c == '\u{451}'
        || ('\u{E00}' <= c && c <= '\u{E7F}') || ('\u{4E00}' <= c && c <= '\u{9FFF}')
}

pub open spec fn is_keyword(k: Seq<char>) -> bool {
    k.len() > 0 && forall|i: int| 0 <= i < k.len() ==> is_keyword_char(#[trigger] k[i])
}

pub open spec fn all_keywords(keys: Seq<Seq<char>>) -> bool {
    forall|j: int| 0 <= j < keys.len() ==> is_keyword(#[trigger] keys[j])
}

/// `c` is the keyword character `k` or one of its capital forms.
pub open spec fn matches_ignoring_case(c: char, k: char) -> bool {
    c == k
        || ('a' <= k && k <= 'z' && c as u32 + 32 == k as u32)
        || ('\u{430}' <= k && k <= '\u{44F}' && c as u32 + 32 == k as u32)
        || (k == '\u{451}' && c == '\u{401}')
        || (k == 'k' && c == '\u{212A}')
        || (k == 's' && c == '\u{17F}')
}

pub open spec fn keyword_at(t: Seq<char>, q: int, k: Seq<char>) -> bool {
    0 <= q && q + k.len() <= t.len() && forall|j: int|
        0 <= j < k.len() ==> #[trigger] matches_ignoring_case(t[q + j], k[j])
}

pub open spec fn any_keyword_at(t: Seq<char>, q: int, keys: Seq<Seq<char>>) -> bool {
    exists|j: int| 0 <= j < keys.len() && #[trigger] keyword_at(t, q, keys[j])
}

/// From `e` on, `t` holds white space and then one of `keys`.
pub open spec fn spaces_then_keyword(t: Seq<char>, e: int, keys: Seq<Seq<char>>) -> bool {
    exists|q: int|
        e <= q && (forall|i: int| e <= i < q ==> is_space(#[trigger] t[i])) && #[trigger] any_keyword_at(
            t,
            q,
            keys,
        )
}

/// `t[s..e]` is a maximal run of number characters.
pub open spec fn number_run(t: Seq<char>, s: int, e: int) -> bool {
    0 <= s < e <= t.len() && (s == 0 || !is_number_char(t[s - 1])) && (e == t.len()
        || !is_number_char(t[e])) && forall|i: int| s <= i < e ==> is_number_char(#[trigger] t[i])
}

pub open spec fn keyed_number(t: Seq<char>, s: int, e: int, keys: Seq<Seq<char>>) -> bool {
    number_run(t, s, e) && spaces_then_keyword(t, e, keys)
}

/// The keyed number that starts first in `t`.
pub open spec fn first_keyed_number(t: Seq<char>, s: int, e: int, keys: Seq<Seq<char>>) -> bool {
    keyed_number(t, s, e, keys) && forall|s2: int, e2: int| #[trigger]
        keyed_number(t, s2, e2, keys) ==> s <= s2
}

pub open spec fn digit_value(c: char) -> nat {
    (c as u32 - '0' as u32) as nat
}

pub open spec fn digits_value(d: Seq<char>) -> nat
    decreases d.len(),
{
    if d.len() == 0 {
        0
    } else {
        digits_value(d.drop_last()) * 10 + digit_value(d.last())
    }
}

pub open spec fn all_digits(d: Seq<char>) -> bool {
    forall|i: int| 0 <= i < d.len() ==> is_digit(#[trigger] d[i])
}

/// The first three digits after the separator, in thousandths.
pub open spec fn fraction_thousandths(f: Seq<char>) -> nat {
    if f.len() == 0 {
        0
    } else if f.len() == 1 {
        digits_value(f) * 100
    } else if f.len() == 2 {
        digits_value(f) * 10
    } else {
        digits_value(f.take(3))
    }
}

/// `r` is digits, one separator at `p`, and digits.
pub open spec fn split_decimal(r: Seq<char>, p: int) -> bool {
    0 <= p < r.len() && is_separator(r[p]) && all_digits(r.take(p)) && all_digits(r.skip(p + 1))
}

/// The value of a decimal number in thousandths: digits with at most one
/// separator (`.` or `,`) and at least one digit. Digits past the third
/// after the separator are dropped.
pub open spec fn decimal_thousandths(r: Seq<char>) -> Option<nat> {
    if r.len() > 0 && all_digits(r) {
        Some(digits_value(r) * 1000)
    } else if r.len() > 1 && exists|p: int| split_decimal(r, p) {
        let p = choose|p: int| split_decimal(r, p);
        Some(digits_value(r.take(p)) * 1000 + fraction_thousandths(r.skip(p + 1)))
    } else {
        None
    }
}

/// A parsed number, kept only where it fits in `u64`.
pub open spec fn fitting(v: Option<nat>) -> Option<u64> {
    match v {
        Some(x) => if x <= u64::MAX {
            Some(x as u64)
        } else {
            None
        },
        None => None,
    }
}

/// The value of a field in `t`: the first keyed number, if it parses.
pub open spec fn field_value(t: Seq<char>, keys: Seq<Seq<char>>) -> Option<u64> {
    if exists|s: int, e: int| first_keyed_number(t, s, e, keys) {
        let (s, e) = choose|s: int, e: int| first_keyed_number(t, s, e, keys);
        fitting(decimal_thousandths(t.subrange(s, e)))
    } else {
        None
    }
}

pub fn is_number_char_exec(c: char) -> (r: bool)
    ensures
        r == is_number_char(c),
{
    ('0' <= c && c <= '9') || c == '.' || c == ','
}

pub fn is_space_exec(c: char) -> (r: bool)
    ensures
        r == is_space(c),
{
    c == ' ' || ('\t' <= c && c <= '\r') || c == '\u{85}' || c == '\u{A0}' || c == '\u{1680}'
        || ('\u{2000}' <= c && c <= '\u{200A}') || c == '\u{2028}' || c == '\u{2029}'
        || c == '\u{202F}' || c == '\u{205F}' || c == '\u{3000}'
}

pub fn matches_ignoring_case_exec(c: char, k: char) -> (r: bool)
    ensures
        r == matches_ignoring_case(c, k),
{
    c == k || ('a' <= k && k <= 'z' && c as u32 + 32 == k as u32) || ('\u{430}' <= k && k
        <= '\u{44F}' && c as u32 + 32 == k as u32) || (k == '\u{451}' && c == '\u{401}') || (k
        == 'k' && c == '\u{212A}') || (k == 's' && c == '\u{17F}')
}

/// A character that matches a keyword character is neither white space nor
/// part of a number.
pub proof fn lemma_keyword_char_not_space(c: char, k: char)
    requires
        is_keyword_char(k),
        matches_ignoring_case(c, k),
    ensures
        !is_space(c),
        !is_number_char(c),
{
}

fn keyword_at_exec(t: &Vec<char>, q: usize, k: &Vec<char>) -> (r: bool)
    ensures
        r == keyword_at(t@, q as int, k@),
{
    if k.len() > t.len() || q > t.len() - k.len() {
        return false;
    }
    let mut j: usize = 0;
    while j < k.len()
        invariant
            j <= k@.len(),
            q + k@.len() <= t@.len(),
            forall|i: int| 0 <= i < j ==> #[trigger] matches_ignoring_case(t@[q + i], k@[i]),
        decreases k@.len() - j,
    {
        assert(q + j < t.len());
        if !matches_ignoring_case_exec(t[q + j], k[j]) {
            return false;
        }
        j = j + 1;
    }
    true
}

fn any_keyword_at_exec(t: &Vec<char>, q: usize, keys: &Vec<Vec<char>>) -> (r: bool)
    ensures
        r == any_keyword_at(t@, q as int, keys.deep_view()),
{
    let ghost kv = keys.deep_view();
    let mut j: usize = 0;
    while j < keys.len()
        invariant
            j <= keys@.len(),
            kv == keys.deep_view(),
            forall|i: int| 0 <= i < j ==> !#[trigger] keyword_at(t@, q as int, kv[i]),
        decreases keys@.len() - j,
    {
        assert(kv[j as int] =~= keys@[j as int]@);
        if keyword_at_exec(t, q, &keys[j]) {
            assert(keyword_at(t@, q as int, kv[j as int]));
            return true;
        }
        j = j + 1;
    }
    false
}

/// Finds the first maximal run of number characters that is followed by white
/// space and one of `keys`, and returns its bounds.
pub fn find_keyed_number(t: &Vec<char>, keys: &Vec<Vec<char>>) -> (r: Option<(usize, usize)>)
    requires
        all_keywords(keys.deep_view()),
    ensures
        match r {
            Some((s, e)) => first_keyed_number(t@, s as int, e as int, keys.deep_view()),
            None => forall|s: int, e: int| !#[trigger] keyed_number(t@, s, e, keys.deep_view()),
        },
{
    let ghost kv = keys.deep_view();
    let n = t.len();
    let mut i: usize = 0;
    while i < n
        invariant
            i <= n,
            n == t@.len(),
            kv == keys.deep_view(),
            all_keywords(kv),
            forall|s: int, e: int| s < i ==> !#[trigger] keyed_number(t@, s, e, kv),
        decreases n - i,
    {
        if is_number_char_exec(t[i]) && (i == 0 || !is_number_char_exec(t[i - 1])) {
            let mut e: usize = i + 1;
            while e < n && is_number_char_exec(t[e])
                invariant
                    i < e <= n,
                    n == t@.len(),
                    forall|k: int| i <= k < e ==> is_number_char(#[trigger] t@[k]),
                decreases n - e,
            {
                e = e + 1;
            }
            let mut q: usize = e;
            while q < n && is_space_exec(t[q])
                invariant
                    e <= q <= n,
                    n == t@.len(),
                    forall|k: int| e <= k < q ==> is_space(#[trigger] t@[k]),
                decreases n - q,
            {
                q = q + 1;
            }
            assert(number_run(t@, i as int, e as int));
            if any_keyword_at_exec(t, q, keys) {
                assert(spaces_then_keyword(t@, e as int, kv));
                assert(keyed_number(t@, i as int, e as int, kv));
                return Some((i, e));
            }
            proof {
                assert forall|s: int, e2: int| s < e implies !#[trigger] keyed_number(t@, s, e2, kv) by {
                    if s >= i && keyed_number(t@, s, e2, kv) {
                        if s > i {
                            assert(is_number_char(t@[s - 1]));
                        } else {
                            if e2 < e {
                                assert(is_number_char(t@[e2]));
                            } else if e2 > e {
                                assert(is_number_char(t@[e as int]));
                            }
                            assert(e2 == e);
                            let q2 = choose|q2: int|
                                e <= q2 && (forall|k: int| e <= k < q2 ==> is_space(#[trigger] t@[k]))
                                    && #[trigger] any_keyword_at(t@, q2, kv);
                            let j = choose|j: int| 0 <= j < kv.len() && #[trigger] keyword_at(t@, q2, kv[j]);
                            assert(is_keyword(kv[j]));
                            assert(matches_ignoring_case(t@[q2 + 0], kv[j][0]));
                            assert(is_keyword_char(kv[j][0]));
                            lemma_keyword_char_not_space(t@[q2], kv[j][0]);
                            if q2 < q {
                                assert(is_space(t@[q2]));
                            } else if q2 > q {
                                assert(is_space(t@[q as int]));
                            }
                        }
                    }
                }
            }
            i = e;
        } else {
            proof {
                assert forall|s: int, e2: int| s < i + 1 implies !#[trigger] keyed_number(t@, s, e2, kv) by {
                    if s == i && keyed_number(t@, s, e2, kv) {
                        assert(is_number_char(t@[s]));
                        if i > 0 {
                            assert(!is_number_char(t@[s - 1]));
                        }
                    }
                }
            }
            i = i + 1;
        }
    }
    None
}

pub proof fn lemma_digits_value_prefix(d: Seq<char>, i: int)
    requires
        0 <= i <= d.len(),
    ensures
        digits_value(d.take(i)) <= digits_value(d),
    decreases d.len(),
{
    if i < d.len() {
        assert(d.drop_last().take(i) =~= d.take(i));
        lemma_digits_value_prefix(d.drop_last(), i);
    } else {
        assert(d.take(i) =~= d);
    }
}

pub open spec fn ten_pow(n: nat) -> nat
    decreases n,
{
    if n == 0 {
        1
    } else {
        10 * ten_pow((n - 1) as nat)
    }
}

pub proof fn lemma_digits_value_bound(d: Seq<char>)
    requires
        all_digits(d),
    ensures
        digits_value(d) < ten_pow(d.len()),
    decreases d.len(),
{
    if d.len() > 0 {
        let l = d.drop_last();
        assert(all_digits(l)) by {
            assert forall|i: int| 0 <= i < l.len() implies is_digit(#[trigger] l[i]) by {
                assert(l[i] == d[i]);
            }
        }
        lemma_digits_value_bound(l);
        assert(is_digit(d[d.len() - 1]));
        let a = digits_value(l);
        let b = ten_pow(l.len());
        let x = digit_value(d.last());
        assert(a * 10 + x < 10 * b) by (nonlinear_arith)
            requires a < b, x <= 9;
    }
}

/// The value of the digits `t[a..b]`, where it fits in `u64`.
fn digits_u64(t: &Vec<char>, a: usize, b: usize) -> (r: Option<u64>)
    requires
        a <= b <= t@.len(),
        all_digits(t@.subrange(a as int, b as int)),
    ensures
        r == fitting(Some(digits_value(t@.subrange(a as int, b as int)))),
{
    let ghost d = t@.subrange(a as int, b as int);
    let mut v: u64 = 0;
    let mut k: usize = a;
    while k < b
        invariant
            a <= k <= b <= t@.len(),
            d == t@.subrange(a as int, b as int),
            all_digits(d),
            v as nat == digits_value(d.take(k - a)),
        decreases b - k,
    {
        let c = t[k];
        assert(d[k - a] == c);
        assert(is_digit(c));
        let dv = (c as u32 - '0' as u32) as u64;
        proof {
            let p = d.take(k - a + 1);
            assert(p.drop_last() =~= d.take(k - a));
            assert(p.last() == c);
        }
        if v > (u64::MAX - dv) / 10 {
            proof {
                assert(v * 10 + dv > u64::MAX) by (nonlinear_arith)
                    requires v > (u64::MAX - dv) / 10, dv <= 9;
                lemma_digits_value_prefix(d, k - a + 1);
            }
            return None;
        }
        assert(v * 10 + dv <= u64::MAX) by (nonlinear_arith)
            requires v <= (u64::MAX - dv) / 10, dv <= 9;
        v = v * 10 + dv;
        k = k + 1;
    }
    assert(d.take(b - a) =~= d);
    Some(v)
}

/// The value in thousandths of the number `t[s..e]`, where it is well formed
/// and fits in `u64`.
pub fn parse_thousandths(t: &Vec<char>, s: usize, e: usize) -> (r: Option<u64>)
    requires
        s <= e <= t@.len(),
        forall|i: int| s <= i < e ==> is_number_char(#[trigger] t@[i]),
    ensures
        r == fitting(decimal_thousandths(t@.subrange(s as int, e as int))),
{
    let ghost r = t@.subrange(s as int, e as int);
    let mut sep: Option<usize> = None;
    let mut k: usize = s;
    while k < e
        invariant
            s <= k <= e <= t@.len(),
            r == t@.subrange(s as int, e as int),
            forall|i: int| s <= i < e ==> is_number_char(#[trigger] t@[i]),
            match sep {
                None => forall|i: int| s <= i < k ==> is_digit(#[trigger] t@[i]),
                Some(p) => s <= p < k && is_separator(t@[p as int]) && forall|i: int|
                    s <= i < k && i != p ==> is_digit(#[trigger] t@[i]),
            },
        decreases e - k,
    {
        if t[k] == '.' || t[k] == ',' {
            if let Some(p) = sep {
                proof {
                    assert(is_separator(r[p - s]));
                    assert(is_separator(r[k - s]));
                    assert(!all_digits(r));
                    assert forall|p_other: int| !split_decimal(r, p_other) by {
                        if split_decimal(r, p_other) {
                            if p_other != p - s {
                                if p - s < p_other {
                                    assert(r.take(p_other)[p - s] == r[p - s]);
                                } else {
                                    assert(r.skip(p_other + 1)[p - s - p_other - 1] == r[p - s]);
                                }
                            } else {
                                assert(r.skip(p_other + 1)[k - s - p_other - 1] == r[k - s]);
                            }
                        }
                    }
                }
                return None;
            }
            sep = Some(k);
        }
        k = k + 1;
    }
    match sep {
        None => {
            if s == e {
                return None;
            }
            assert(all_digits(r));
            match digits_u64(t, s, e) {
                Some(v) => v.checked_mul(1000),
                None => None,
            }
        },
        Some(p) => {
            assert(is_separator(r[p - s]));
            assert(!all_digits(r));
            if e - s < 2 {
                return None;
            }
            assert(split_decimal(r, p - s)) by {
                assert(r.take(p - s) =~= t@.subrange(s as int, p as int));
                assert(r.skip(p - s + 1) =~= t@.subrange(p + 1, e as int));
            }
            proof {
                let p_other = choose|p_other: int| split_decimal(r, p_other);
                if p_other != p - s {
                    if p - s < p_other {
                        assert(r.take(p_other)[p - s] == r[p - s]);
                    } else {
                        assert(r.skip(p_other + 1)[p - s - p_other - 1] == r[p - s]);
                    }
                }
                assert(r.take(p - s) =~= t@.subrange(s as int, p as int));
                assert(r.skip(p - s + 1) =~= t@.subrange(p + 1, e as int));
            }
            let whole = digits_u64(t, s, p);
            let m: usize = if e - (p + 1) > 3 { 3 } else { e - (p + 1) };
            let ghost f = t@.subrange(p + 1, e as int);
            assert(t@.subrange(p + 1, p + 1 + m) =~= f.take(m as int));
            proof {
                lemma_digits_value_bound(f.take(m as int));
                reveal_with_fuel(ten_pow, 4);
                assert(ten_pow(m as nat) <= 1000);
            }
            let frac_digits = digits_u64(t, p + 1, p + 1 + m);
            let fd: u64 = match frac_digits {
                Some(v) => v,
                None => 0,
            };
            proof {
                if m == 3 {
                    assert(f.take(3).drop_last().drop_last().drop_last() =~= Seq::<char>::empty());
                } else if m == 2 {
                    assert(f.take(2) =~= f);
                    assert(f.drop_last().drop_last() =~= Seq::<char>::empty());
                } else if m == 1 {
                    assert(f.take(1) =~= f);
                    assert(f.drop_last() =~= Seq::<char>::empty());
                } else {
                    assert(f.take(0) =~= f);
                }
            }
            assert(fd as nat == digits_value(f.take(m as int)));
            let scale: u64 = if m == 0 { 0 } else if m == 1 { 100 } else if m == 2 { 10 } else { 1 };
            assert(fd * scale == fraction_thousandths(f));
            match whole {
                Some(w) => match w.checked_mul(1000) {
                    Some(w3) => w3.checked_add(fd * scale),
                    None => None,
                },
                None => None,
            }
        },
    }
}

/// The value of the field named by `keys` in `t`.
pub fn extract_field(t: &Vec<char>, keys: &Vec<Vec<char>>) -> (r: Option<u64>)
    requires
        all_keywords(keys.deep_view()),
    ensures
        r == field_value(t@, keys.deep_view()),
{
    let ghost kv = keys.deep_view();
    match find_keyed_number(t, keys) {
        Some((s, e)) => {
            proof {
                let (s2, e2) = choose|s2: int, e2: int| first_keyed_number(t@, s2, e2, kv);
                assert(keyed_number(t@, s as int, e as int, kv));
                assert(keyed_number(t@, s2, e2, kv));
                assert(s == s2);
                if e2 < e {
                    assert(is_number_char(t@[e2]));
                } else if e2 > e {
                    assert(is_number_char(t@[e as int]));
                }
            }
            parse_thousandths(t, s, e)
        },
        None => {
            assert(!exists|s: int, e: int| first_keyed_number(t@, s, e, kv));
            None
        },
    }
}

/// The characters of `s`.
pub fn chars_of(s: &str) -> (r: Vec<char>)
    ensures
        r@ == s@,
{
    let n = s.unicode_len();
    let mut v: Vec<char> = Vec::new();
    let mut i: usize = 0;
    while i < n
        invariant
            i <= n,
            n == s@.len(),
            v@ == s@.take(i as int),
        decreases n - i,
    {
        v.push(s.get_char(i));
        i = i + 1;
        assert(v@ =~= s@.take(i as int));
    }
    assert(s@.take(n as int) =~= s@);
    v
}

/// Whether two texts are the same.
pub fn same_text(a: &str, b: &str) -> (r: bool)
    ensures
        r == (a@ == b@),
{
    let n = a.unicode_len();
    if n != b.unicode_len() {
        return false;
    }
    let mut i: usize = 0;
    while i < n
        invariant
            i <= n,
            n == a@.len(),
            n == b@.len(),
            forall|k: int| 0 <= k < i ==> a@[k] == b@[k],
        decreases n - i,
    {
        if a.get_char(i) != b.get_char(i) {
            return false;
        }
        i = i + 1;
    }
    assert(a@ =~= b@);
    true
}

} // verus!
