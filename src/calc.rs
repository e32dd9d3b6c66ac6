//! The arguments of `/calc`: exactly two whitespace-separated words, an
//! amount written as a decimal number and a symbol.
use vstd::prelude::*;
use vstd::string::*;

verus! {

/// A character with the Unicode `White_Space` property.
pub open spec fn is_white_space(c: char) -> bool {
    let u = c as u32;
    (0x09 <= u <= 0x0D) || u == 0x20 || u == 0x85 || u == 0xA0 || u == 0x1680 || (0x2000 <= u
        <= 0x200A) || u == 0x2028 || u == 0x2029 || u == 0x202F || u == 0x205F || u == 0x3000
}

/// Whether `c` has the Unicode `White_Space` property.
pub fn white_space(c: char) -> (r: bool)
    ensures
        r == is_white_space(c),
{
    let u = c as u32;
    (0x09 <= u && u <= 0x0D) || u == 0x20 || u == 0x85 || u == 0xA0 || u == 0x1680 || (0x2000 <= u
        && u <= 0x200A) || u == 0x2028 || u == 0x2029 || u == 0x202F || u == 0x205F || u == 0x3000
}

/// The words finished so far and the word being read, after reading `s`
/// from the left.
pub open spec fn split_state(s: Seq<char>) -> (Seq<Seq<char>>, Seq<char>)
    decreases s.len(),
{
    if s.len() == 0 {
        (Seq::empty(), Seq::empty())
    } else {
        let (done, cur) = split_state(s.drop_last());
        if is_white_space(s.last()) {
            if cur.len() > 0 {
                (done.push(cur), Seq::empty())
            } else {
                (done, cur)
            }
        } else {
            (done, cur.push(s.last()))
        }
    }
}

/// The maximal runs of non-white-space characters of `s`, in order.
pub open spec fn words(s: Seq<char>) -> Seq<Seq<char>> {
    let (done, cur) = split_state(s);
    if cur.len() > 0 {
        done.push(cur)
    } else {
        done
    }
}

/// Splits `s` into its words: the maximal runs of characters that are not
/// white space.
pub fn split_words(s: &str) -> (r: Vec<String>)
    ensures
        r@.map_values(|w: String| w@) == words(s@),
{
    let n = s.unicode_len();
    let mut done: Vec<String> = Vec::new();
    let mut cur = String::new();
    let mut i: usize = 0;
    while i < n
        invariant
            n == s@.len(),
            i <= n,
            (done@.map_values(|w: String| w@), cur@) == split_state(s@.subrange(0, i as int)),
        decreases n - i,
    {
        let c = s.get_char(i);
        assert(s@.subrange(0, i + 1).drop_last() == s@.subrange(0, i as int));
        if white_space(c) {
            if cur.unicode_len() > 0 {
                let ghost before = done@;
                done.push(cur);
                assert(done@.map_values(|w: String| w@) =~= before.map_values(|w: String| w@).push(
                    cur@,
                ));
                cur = String::new();
            }
        } else {
            cur.append(s.substring_char(i, i + 1));
        }
        i = i + 1;
    }
    assert(s@.subrange(0, n as int) == s@);
    if cur.unicode_len() > 0 {
        let ghost before = done@;
        done.push(cur);
        assert(done@.map_values(|w: String| w@) =~= before.map_values(|w: String| w@).push(cur@));
    }
    done
}

/// An ASCII decimal digit.
pub open spec fn is_digit(c: char) -> bool {
    '0' <= c <= '9'
}

/// A sign character.
pub open spec fn is_sign(c: char) -> bool {
    c == '+' || c == '-'
}

/// Every character of `s` at a position in `lo..hi` is a digit.
pub open spec fn digits_between(s: Seq<char>, lo: int, hi: int) -> bool {
    forall|i: int| lo <= i < hi ==> #[trigger] is_digit(s[i])
}

/// The first position at or after `i` that holds `a` or `b`; the length of
/// `s` where there is none.
pub open spec fn find_from(s: Seq<char>, i: int, a: char, b: char) -> int
    decreases s.len() - i,
{
    if i >= s.len() {
        s.len() as int
    } else if s[i] == a || s[i] == b {
        i
    } else {
        find_from(s, i + 1, a, b)
    }
}

/// Two characters that are equal when ASCII letters are put in lower case.
pub open spec fn same_letter(a: char, b: char) -> bool {
    a == b || ('A' <= a <= 'Z' && a as u32 + 32 == b as u32) || ('A' <= b <= 'Z' && b as u32 + 32
        == a as u32)
}

/// Two texts that are equal when ASCII letters are put in lower case.
pub open spec fn same_ignoring_case(a: Seq<char>, b: Seq<char>) -> bool {
    a.len() == b.len() && forall|i: int| 0 <= i < a.len() ==> #[trigger] same_letter(a[i], b[i])
}

/// Where the number proper starts: after a leading sign, if any.
pub open spec fn sign_end(s: Seq<char>) -> int {
    if s.len() > 0 && is_sign(s[0]) {
        1
    } else {
        0
    }
}

/// From position `b` on, `s` is digits with at most one point and at least
/// one digit, then optionally `e` or `E`, an optional sign and digits.
pub open spec fn is_number_from(s: Seq<char>, b: int) -> bool {
    let e = find_from(s, b, 'e', 'E');
    let d = find_from(s, b, '.', '.');
    let mantissa = if d < e {
        digits_between(s, b, d) && digits_between(s, d + 1, e) && e - b >= 2
    } else {
        digits_between(s, b, e) && e - b >= 1
    };
    let x = if e + 1 < s.len() && is_sign(s[e + 1]) {
        e + 2
    } else {
        e + 1
    };
    let exponent = e == s.len() || (x < s.len() && digits_between(s, x, s.len() as int));
    mantissa && exponent
}

/// A text that reads as a decimal floating-point number: an optional sign,
/// then `inf`, `infinity` or `nan` in any case, or a number as
/// `is_number_from` describes it.
pub open spec fn is_decimal(s: Seq<char>) -> bool {
    let b = sign_end(s);
    let rest = s.subrange(b, s.len() as int);
    same_ignoring_case(rest, "inf"@) || same_ignoring_case(rest, "infinity"@) || same_ignoring_case(
        rest,
        "nan"@,
    ) || is_number_from(s, b)
}

/// Whether two characters are equal when ASCII letters are put in lower
/// case.
pub fn letters_match(a: char, b: char) -> (r: bool)
    ensures
        r == same_letter(a, b),
{
    a == b || ('A' <= a && a <= 'Z' && (a as u32) + 32 == b as u32) || ('A' <= b && b <= 'Z' && (
    b as u32) + 32 == a as u32)
}

/// Whether the part of `s` from `lo` on equals `w` when ASCII letters are
/// put in lower case.
pub fn tail_matches(s: &str, lo: usize, w: &str) -> (r: bool)
    requires
        lo <= s@.len(),
    ensures
        r == same_ignoring_case(s@.subrange(lo as int, s@.len() as int), w@),
{
    let n = s.unicode_len();
    let m = w.unicode_len();
    if n - lo != m {
        return false;
    }
    let ghost t = s@.subrange(lo as int, n as int);
    let mut i: usize = 0;
    while i < m
        invariant
            n == s@.len(),
            m == w@.len(),
            n - lo == m,
            lo <= n,
            t == s@.subrange(lo as int, n as int),
            i <= m,
            forall|j: int| 0 <= j < i ==> #[trigger] same_letter(t[j], w@[j]),
        decreases m - i,
    {
        if !letters_match(s.get_char(lo + i), w.get_char(i)) {
            assert(!same_letter(t[i as int], w@[i as int]));
            return false;
        }
        i = i + 1;
    }
    true
}

/// The first position at or after `i` that holds `a` or `b`, or the length.
pub fn find_either(s: &str, i: usize, a: char, b: char) -> (r: usize)
    requires
        i <= s@.len(),
    ensures
        r == find_from(s@, i as int, a, b),
        i <= r <= s@.len(),
{
    let n = s.unicode_len();
    let mut j: usize = i;
    while j < n
        invariant
            n == s@.len(),
            i <= j <= n,
            find_from(s@, i as int, a, b) == find_from(s@, j as int, a, b),
        decreases n - j,
    {
        let c = s.get_char(j);
        if c == a || c == b {
            return j;
        }
        j = j + 1;
    }
    j
}

/// Whether every character of `s` at a position in `lo..hi` is a digit.
pub fn all_digits(s: &str, lo: usize, hi: usize) -> (r: bool)
    requires
        hi <= s@.len(),
    ensures
        r == digits_between(s@, lo as int, hi as int),
{
    let mut i: usize = lo;
    while i < hi
        invariant
            hi <= s@.len(),
            lo <= i,
            forall|j: int| lo <= j < i && j < hi ==> #[trigger] is_digit(s@[j]),
        decreases hi - i,
    {
        let c = s.get_char(i);
        if !('0' <= c && c <= '9') {
            assert(!is_digit(s@[i as int]));
            return false;
        }
        i = i + 1;
    }
    true
}

/// Whether `s` reads as a decimal floating-point number.
pub fn decimal(s: &str) -> (r: bool)
    ensures
        r == is_decimal(s@),
{
    let n = s.unicode_len();
    let b: usize = if n > 0 && (s.get_char(0) == '+' || s.get_char(0) == '-') {
        1
    } else {
        0
    };
    if tail_matches(s, b, "inf") || tail_matches(s, b, "infinity") || tail_matches(s, b, "nan") {
        return true;
    }
    let e = find_either(s, b, 'e', 'E');
    let d = find_either(s, b, '.', '.');
    let mantissa = if d < e {
        all_digits(s, b, d) && all_digits(s, d + 1, e) && e - b >= 2
    } else {
        all_digits(s, b, e) && e - b >= 1
    };
    if !mantissa {
        return false;
    }
    if e == n {
        return true;
    }
    let x: usize = if e + 1 < n && (s.get_char(e + 1) == '+' || s.get_char(e + 1) == '-') {
        e + 2
    } else {
        e + 1
    };
    x < n && all_digits(s, x, n)
}

/// The amount and symbol of a well-formed `/calc` request. The amount is the
/// word as the user wrote it; it reads as a decimal number.
#[derive(Debug, Clone, PartialEq, Eq)]
pub struct ParsedCalcArgs {
    pub amount: String,
    pub symbol: String,
}

/// The amount and symbol that a `/calc` parameter string gives: it must hold
/// exactly two words, the first a decimal number.
pub open spec fn calc_args_of(param: Seq<char>) -> Option<(Seq<char>, Seq<char>)> {
    let w = words(param);
    if w.len() == 2 && is_decimal(w[0]) {
        Some((w[0], w[1]))
    } else {
        None
    }
}

/// Splits and checks the parameter string of `/calc`.
pub fn parse_calc_args(param: &str) -> (r: Option<ParsedCalcArgs>)
    ensures
        match r {
            Some(a) => calc_args_of(param@) == Some((a.amount@, a.symbol@)),
            None => calc_args_of(param@) is None,
        },
        words(param@).len() != 2 ==> r is None,
        words(param@).len() == 2 && !is_decimal(words(param@)[0]) ==> r is None,
{
    let w = split_words(param);
    proof {
        assert(w@.map_values(|x: String| x@).len() == w@.len());
    }
    if w.len() != 2 {
        return None;
    }
    assert(w@.map_values(|x: String| x@)[0] == w@[0]@);
    assert(w@.map_values(|x: String| x@)[1] == w@[1]@);
    if !decimal(w[0].as_str()) {
        return None;
    }
    Some(ParsedCalcArgs { amount: w[0].clone(), symbol: w[1].clone() })
}

} // verus!
