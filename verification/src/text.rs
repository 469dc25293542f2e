//! Verified text scanning: substring search, string equality, digit runs and
//! decimal rendering, the groundwork for the wire-protocol parsers.

use vstd::prelude::*;
use vstd::string::StrSliceExecFns;
use vstd::string::StringExecFns;

verus! {

/// `pat` occurs in `s` starting at index `i`.
pub open spec fn is_match_at(s: Seq<char>, pat: Seq<char>, i: int) -> bool {
    &&& 0 <= i
    &&& i + pat.len() <= s.len()
    &&& s.subrange(i, i + pat.len()) == pat
}

/// The first index at or after `from` where `pat` occurs in `s`, if any.
pub open spec fn spec_find(s: Seq<char>, pat: Seq<char>, from: int) -> Option<int>
    decreases s.len() - from + 1,
{
    if from < 0 || from + pat.len() > s.len() {
        None
    } else if is_match_at(s, pat, from) {
        Some(from)
    } else {
        spec_find(s, pat, from + 1)
    }
}

/// What a found index means: `pat` matches there and nowhere earlier.
pub proof fn lemma_spec_find_some(s: Seq<char>, pat: Seq<char>, from: int, i: int)
    requires
        spec_find(s, pat, from) == Some(i),
    ensures
        from <= i,
        is_match_at(s, pat, i),
        forall|j: int| from <= j < i ==> !is_match_at(s, pat, j),
    decreases s.len() - from + 1,
{
    if from < 0 || from + pat.len() > s.len() {
    } else if is_match_at(s, pat, from) {
    } else {
        lemma_spec_find_some(s, pat, from + 1, i);
    }
}

/// `pat` occurs somewhere in `s`.
pub open spec fn spec_contains(s: Seq<char>, pat: Seq<char>) -> bool {
    spec_find(s, pat, 0) is Some
}

/// Whether `pat` matches `s` at position `i`, checked character by character.
pub fn match_at(s: &str, pat: &str, i: usize) -> (r: bool)
    ensures
        r == is_match_at(s@, pat@, i as int),
{
    let n: usize = s.unicode_len();
    let m: usize = pat.unicode_len();
    if i > n || m > n - i {
        return false;
    }
    let mut k: usize = 0;
    while k < m
        invariant
            0 <= k <= m,
            i + m <= n,
            n == s@.len(),
            m == pat@.len(),
            forall|j: int| 0 <= j < k ==> s@[i + j] == pat@[j],
        decreases m - k,
    {
        if s.get_char(i + k) != pat.get_char(k) {
            proof {
                assert(s@.subrange(i as int, i + m) != pat@) by {
                    assert(s@.subrange(i as int, i + m)[k as int] == s@[i + k]);
                }
            }
            return false;
        }
        k += 1;
    }
    proof {
        assert(s@.subrange(i as int, i + m) =~= pat@);
    }
    true
}

/// The first occurrence of `pat` in `s` at or after `from`.
pub fn find_from(s: &str, pat: &str, from: usize) -> (r: Option<usize>)
    ensures
        match r {
            Some(i) => spec_find(s@, pat@, from as int) == Some(i as int),
            None => spec_find(s@, pat@, from as int) is None,
        },
{
    let n: usize = s.unicode_len();
    let m: usize = pat.unicode_len();
    if m == 0 {
        if from <= n {
            proof {
                assert(s@.subrange(from as int, from as int) =~= pat@);
            }
            return Some(from);
        } else {
            return None;
        }
    }
    if m > n || from > n - m {
        return None;
    }
    let mut i: usize = from;
    while i <= n - m
        invariant
            from <= i,
            1 <= m <= n,
            n == s@.len(),
            m == pat@.len(),
            spec_find(s@, pat@, from as int) == spec_find(s@, pat@, i as int),
        decreases n + 1 - i,
    {
        if match_at(s, pat, i) {
            return Some(i);
        }
        i += 1;
    }
    None
}

/// Whether `pat` occurs anywhere in `s`.
pub fn contains_pat(s: &str, pat: &str) -> (r: bool)
    ensures
        r == spec_contains(s@, pat@),
{
    match find_from(s, pat, 0) {
        Some(_) => true,
        None => false,
    }
}

/// Character-for-character string equality.
pub fn str_eq(a: &str, b: &str) -> (r: bool)
    ensures
        r == (a@ == b@),
{
    let n: usize = a.unicode_len();
    if n != b.unicode_len() {
        return false;
    }
    let r = match_at(a, b, 0);
    proof {
        assert(a@.subrange(0, n as int) =~= a@);
        if r {
            assert(a@ == b@);
        } else {
            assert(a@ != b@);
        }
    }
    r
}

/// An owned copy of the characters of `s` between `from` and `to`.
pub fn substring_owned(s: &str, from: usize, to: usize) -> (r: String)
    requires
        from <= to <= s@.len(),
    ensures
        r@ == s@.subrange(from as int, to as int),
{
    String::from_str(s.substring_char(from, to))
}

/// ASCII decimal digit.
pub open spec fn is_digit(c: char) -> bool {
    48 <= c as u32 <= 57
}

/// Numeric value of a decimal digit character.
pub open spec fn digit_val(c: char) -> int {
    c as u32 - 48
}

/// The decimal digit character for a value below ten.
pub open spec fn digit_char(d: int) -> char {
    if d == 0 {
        '0'
    } else if d == 1 {
        '1'
    } else if d == 2 {
        '2'
    } else if d == 3 {
        '3'
    } else if d == 4 {
        '4'
    } else if d == 5 {
        '5'
    } else if d == 6 {
        '6'
    } else if d == 7 {
        '7'
    } else if d == 8 {
        '8'
    } else {
        '9'
    }
}

/// The number that a run of decimal digits denotes.
pub open spec fn spec_num(s: Seq<char>) -> int
    decreases s.len(),
{
    if s.len() == 0 {
        0
    } else {
        spec_num(s.drop_last()) * 10 + digit_val(s.last())
    }
}

/// The decimal rendering of `n`, most significant digit first, no leading
/// zeros (a single `'0'` for zero).
pub open spec fn spec_digits(n: int) -> Seq<char>
    decreases n,
{
    if n < 10 {
        seq![digit_char(n)]
    } else {
        spec_digits(n / 10).push(digit_char(n % 10))
    }
}

/// The index of the first non-digit character at or after `from`.
pub open spec fn digits_end(s: Seq<char>, from: int) -> int
    decreases s.len() - from + 1,
{
    if from < 0 || from >= s.len() {
        from
    } else if !is_digit(s[from]) {
        from
    } else {
        digits_end(s, from + 1)
    }
}

proof fn lemma_spec_num_grows(s: Seq<char>, a: int, b: int, c: int)
    requires
        0 <= a <= b <= c <= s.len(),
        forall|t: int| a <= t < c ==> is_digit(#[trigger] s[t]),
    ensures
        spec_num(s.subrange(a, b)) <= spec_num(s.subrange(a, c)),
    decreases c - b,
{
    if b < c {
        lemma_spec_num_grows(s, a, b, c - 1);
        let p = s.subrange(a, c);
        assert(p.drop_last() =~= s.subrange(a, c - 1));
        assert(spec_num(p) == spec_num(p.drop_last()) * 10 + digit_val(p.last()));
        assert(spec_num(p.drop_last()) * 10 >= spec_num(p.drop_last())) by {
            lemma_spec_num_nonneg(s, a, c - 1);
        }
        assert(digit_val(p.last()) >= 0);
    } else {
        assert(s.subrange(a, b) =~= s.subrange(a, c));
    }
}

proof fn lemma_spec_num_nonneg(s: Seq<char>, a: int, b: int)
    requires
        0 <= a <= b <= s.len(),
        forall|t: int| a <= t < b ==> is_digit(#[trigger] s[t]),
    ensures
        spec_num(s.subrange(a, b)) >= 0,
    decreases b - a,
{
    if a < b {
        lemma_spec_num_nonneg(s, a, b - 1);
        let p = s.subrange(a, b);
        assert(p.drop_last() =~= s.subrange(a, b - 1));
        assert(is_digit(p.last()));
    } else {
        assert(s.subrange(a, b) =~= Seq::<char>::empty());
    }
}

/// Reads the run of decimal digits of `s` starting at `from` and returns its
/// value, or `None` when no digit stands at `from` or the value does not fit
/// in a `u64`.
pub fn parse_u64_at(s: &str, from: usize) -> (r: Option<u64>)
    ensures
        ({
            let e = digits_end(s@, from as int);
            match r {
                Some(v) => e > from && v == spec_num(s@.subrange(from as int, e)),
                None => e == from || spec_num(s@.subrange(from as int, e)) > u64::MAX,
            }
        }),
{
    let n: usize = s.unicode_len();
    if from >= n {
        return None;
    }
    let mut i: usize = from;
    let mut v: u64 = 0;
    while i < n
        invariant
            from <= i <= n,
            n == s@.len(),
            digits_end(s@, from as int) == digits_end(s@, i as int),
            forall|t: int| from <= t < i ==> is_digit(#[trigger] s@[t]),
            v == spec_num(s@.subrange(from as int, i as int)),
        ensures
            from <= i <= n,
            digits_end(s@, from as int) == i as int,
            v == spec_num(s@.subrange(from as int, i as int)),
        decreases n - i,
    {
        let c = s.get_char(i);
        let cv: u32 = c as u32;
        if !(48 <= cv && cv <= 57) {
            proof {
                assert(digits_end(s@, i as int) == i as int);
            }
            break ;
        }
        let d: u64 = (cv - 48) as u64;
        if v > (u64::MAX - d) / 10 {
            proof {
                let e = digits_end(s@, from as int);
                assert(e == digits_end(s@, i + 1));
                assert(i + 1 <= e <= s@.len()) by {
                    lemma_digits_end_bounds(s@, i + 1);
                }
                assert(forall|t: int| i + 1 <= t < e ==> is_digit(#[trigger] s@[t])) by {
                    lemma_digits_end_digits(s@, i + 1);
                }
                let p = s@.subrange(from as int, i + 1);
                assert(p.drop_last() =~= s@.subrange(from as int, i as int));
                assert(spec_num(p) == v * 10 + d);
                assert(spec_num(p) > u64::MAX);
                lemma_spec_num_grows(s@, from as int, i + 1, e);
            }
            return None;
        }
        let next: u64 = v * 10 + d;
        proof {
            let p = s@.subrange(from as int, i + 1);
            assert(p.drop_last() =~= s@.subrange(from as int, i as int));
            assert(p.last() == s@[i as int]);
            assert(digits_end(s@, i as int) == digits_end(s@, i + 1));
        }
        v = next;
        i += 1;
    }
    if i == from {
        None
    } else {
        Some(v)
    }
}

proof fn lemma_digits_end_bounds(s: Seq<char>, from: int)
    requires
        0 <= from <= s.len(),
    ensures
        from <= digits_end(s, from) <= s.len(),
    decreases s.len() - from + 1,
{
    if from < s.len() && is_digit(s[from]) {
        lemma_digits_end_bounds(s, from + 1);
    }
}

proof fn lemma_digits_end_digits(s: Seq<char>, from: int)
    requires
        0 <= from <= s.len(),
    ensures
        forall|t: int| from <= t < digits_end(s, from) ==> is_digit(#[trigger] s[t]),
    decreases s.len() - from + 1,
{
    if from < s.len() && is_digit(s[from]) {
        lemma_digits_end_digits(s, from + 1);
    }
}

/// The whitespace this crate trims: blank, tab, carriage return, newline.
pub open spec fn is_ws(c: char) -> bool {
    c == ' ' || c == '\t' || c == '\r' || c == '\n'
}

/// The first non-whitespace index at or after `from`, or the end of `t`.
pub open spec fn ws_start_end(t: Seq<char>, from: int) -> int
    decreases t.len() - from + 1,
{
    if from < 0 {
        0
    } else if from >= t.len() {
        t.len() as int
    } else if !is_ws(t[from]) {
        from
    } else {
        ws_start_end(t, from + 1)
    }
}

/// The end of `t` with trailing whitespace dropped, scanning down from
/// `upto`.
pub open spec fn ws_trim_end(t: Seq<char>, upto: int) -> int
    decreases upto,
{
    if upto <= 0 {
        0
    } else if upto > t.len() {
        t.len() as int
    } else if !is_ws(t[upto - 1]) {
        upto
    } else {
        ws_trim_end(t, upto - 1)
    }
}

/// `t` with leading and trailing whitespace removed.
pub open spec fn spec_trim(t: Seq<char>) -> Seq<char> {
    let a = ws_start_end(t, 0);
    if a == t.len() {
        Seq::empty()
    } else {
        t.subrange(a, ws_trim_end(t, t.len() as int))
    }
}

/// An owned copy of `s` with leading and trailing whitespace removed.
pub fn trim_owned(s: &str) -> (r: String)
    ensures
        r@ == spec_trim(s@),
{
    let n: usize = s.unicode_len();
    let mut a: usize = 0;
    while a < n
        invariant
            0 <= a <= n,
            n == s@.len(),
            ws_start_end(s@, 0) == ws_start_end(s@, a as int),
        ensures
            0 <= a <= n,
            n == s@.len(),
            ws_start_end(s@, 0) == a as int,
            a < n ==> !is_ws(s@[a as int]),
        decreases n - a,
    {
        let c = s.get_char(a);
        if !(c == ' ' || c == '\t' || c == '\r' || c == '\n') {
            break ;
        }
        a += 1;
    }
    if a == n {
        let r = String::new();
        proof {
            assert(r@ =~= spec_trim(s@));
        }
        return r;
    }
    let mut b: usize = n;
    while b > a
        invariant
            0 <= a < b <= n,
            n == s@.len(),
            !is_ws(s@[a as int]),
            ws_trim_end(s@, n as int) == ws_trim_end(s@, b as int),
        ensures
            a < b <= n,
            ws_trim_end(s@, n as int) == b as int,
        decreases b,
    {
        let c = s.get_char(b - 1);
        if !(c == ' ' || c == '\t' || c == '\r' || c == '\n') {
            proof {
                assert(ws_trim_end(s@, b as int) == b as int);
            }
            break ;
        }
        proof {
            if b - 1 == a {
                assert(false);
            }
            assert(ws_trim_end(s@, b as int) == ws_trim_end(s@, b - 1));
        }
        b -= 1;
    }
    substring_owned(s, a, b)
}

/// A digit as a one-character string slice.
fn digit_str(d: u64) -> (r: &'static str)
    requires
        d < 10,
    ensures
        r@ =~= seq![digit_char(d as int)],
{
    proof {
        reveal_strlit("0");
        reveal_strlit("1");
        reveal_strlit("2");
        reveal_strlit("3");
        reveal_strlit("4");
        reveal_strlit("5");
        reveal_strlit("6");
        reveal_strlit("7");
        reveal_strlit("8");
        reveal_strlit("9");
    }
    match d {
        0 => "0",
        1 => "1",
        2 => "2",
        3 => "3",
        4 => "4",
        5 => "5",
        6 => "6",
        7 => "7",
        8 => "8",
        _ => "9",
    }
}

/// The decimal rendering of `n`.
pub fn u64_to_string(n: u64) -> (r: String)
    ensures
        r@ == spec_digits(n as int),
    decreases n,
{
    if n < 10 {
        String::from_str(digit_str(n))
    } else {
        let high = u64_to_string(n / 10);
        let r = high.concat(digit_str(n % 10));
        proof {
            assert(r@ =~= spec_digits(n as int / 10).push(digit_char(n as int % 10)));
        }
        r
    }
}

} // verus!
