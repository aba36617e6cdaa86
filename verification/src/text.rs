//! Character-level string helpers used by the request logic.

use vstd::prelude::*;
use vstd::string::*;

verus! {

/// `String::push` appends one character at the end of the string.
pub assume_specification[ String::push ](s: &mut String, ch: char)
    ensures
        final(s)@ == old(s)@.push(ch),
;

/// The characters of `s`, in order.
pub fn chars_of(s: &str) -> (v: Vec<char>)
    ensures
        v@ == s@,
{
    let n = s.unicode_len();
    let mut v: Vec<char> = Vec::new();
    let mut i: usize = 0;
    while i < n
        invariant
            n == s@.len(),
            i <= n,
            v@ == s@.subrange(0, i as int),
        decreases n - i,
    {
        let c = s.get_char(i);
        v.push(c);
        i = i + 1;
    }
    assert(s@.subrange(0, n as int) =~= s@);
    v
}

/// Appends `v[start..]` to `s`.
pub fn push_chars_from(s: &mut String, v: &Vec<char>, start: usize)
    requires
        start <= v@.len(),
    ensures
        final(s)@ == old(s)@ + v@.subrange(start as int, v@.len() as int),
{
    let mut i: usize = start;
    while i < v.len()
        invariant
            start <= i <= v@.len(),
            s@ == old(s)@ + v@.subrange(start as int, i as int),
        decreases v@.len() - i,
    {
        s.push(v[i]);
        i = i + 1;
        assert(v@.subrange(start as int, i as int) =~= v@.subrange(start as int, i - 1).push(
            v@[i - 1],
        ));
    }
}

/// Whether `pattern` occurs in `s` starting at position `i`.
pub open spec fn occurs_at(s: Seq<char>, pattern: Seq<char>, i: int) -> bool {
    0 <= i && i + pattern.len() <= s.len() && s.subrange(i, i + pattern.len()) == pattern
}

/// Whether `pattern` occurs somewhere in `s` (the empty pattern occurs in every string).
pub open spec fn seq_contains(s: Seq<char>, pattern: Seq<char>) -> bool {
    exists|i: int| #[trigger] occurs_at(s, pattern, i)
}

fn matches_at(s: &Vec<char>, pattern: &Vec<char>, i: usize) -> (b: bool)
    requires
        i + pattern@.len() <= s@.len(),
    ensures
        b == occurs_at(s@, pattern@, i as int),
{
    let slen = s.len();
    let mut k: usize = 0;
    while k < pattern.len()
        invariant
            i + pattern@.len() <= s@.len(),
            slen == s@.len(),
            k <= pattern@.len(),
            forall|j: int| 0 <= j < k ==> s@[i + j] == pattern@[j],
        decreases pattern@.len() - k,
    {
        if s[i + k] != pattern[k] {
            assert(s@.subrange(i as int, i + pattern@.len())[k as int] != pattern@[k as int]);
            return false;
        }
        k = k + 1;
    }
    assert(s@.subrange(i as int, i + pattern@.len()) =~= pattern@);
    true
}

/// Substring search over characters, as `str::contains` with a string pattern.
pub fn str_contains(s: &str, pattern: &str) -> (b: bool)
    ensures
        b == seq_contains(s@, pattern@),
{
    let sv = chars_of(s);
    let pv = chars_of(pattern);
    if pv.len() > sv.len() {
        assert forall|j: int| !#[trigger] occurs_at(s@, pattern@, j) by {}
        return false;
    }
    let last: usize = sv.len() - pv.len();
    let mut i: usize = 0;
    while i < last
        invariant
            sv@ == s@,
            pv@ == pattern@,
            i <= last,
            last + pv@.len() == sv@.len(),
            forall|j: int| 0 <= j < i ==> !#[trigger] occurs_at(s@, pattern@, j),
        decreases last - i,
    {
        if matches_at(&sv, &pv, i) {
            assert(occurs_at(s@, pattern@, i as int));
            return true;
        }
        i = i + 1;
    }
    if matches_at(&sv, &pv, last) {
        assert(occurs_at(s@, pattern@, last as int));
        return true;
    }
    assert forall|j: int| !#[trigger] occurs_at(s@, pattern@, j) by {}
    false
}

/// The character of a decimal digit.
pub open spec fn digit_char(d: int) -> char {
    if d == 0 {
        '0'
    } else if d == 1 {
        '1'
    } else if d == 2 {
        '2'
    } else if d == 3 {
        '3'
    } else if d == 4 {
        '4'
    } else if d == 5 {
        '5'
    } else if d == 6 {
        '6'
    } else if d == 7 {
        '7'
    } else if d == 8 {
        '8'
    } else {
        '9'
    }
}

/// The decimal digits of `n`, most significant first, without leading zeros.
pub open spec fn decimal_digits(n: nat) -> Seq<char>
    decreases n,
{
    if n < 10 {
        seq![digit_char(n as int)]
    } else {
        decimal_digits(n / 10).push(digit_char((n % 10) as int))
    }
}

/// How `Display` writes an integer: an optional minus sign, then its decimal digits.
pub open spec fn decimal_string(i: int) -> Seq<char> {
    if i < 0 {
        seq!['-'] + decimal_digits((-i) as nat)
    } else {
        decimal_digits(i as nat)
    }
}

fn digit(d: u64) -> (c: char)
    requires
        d < 10,
    ensures
        c == digit_char(d as int),
{
    match d {
        0 => '0',
        1 => '1',
        2 => '2',
        3 => '3',
        4 => '4',
        5 => '5',
        6 => '6',
        7 => '7',
        8 => '8',
        _ => '9',
    }
}

fn push_decimal_digits(s: &mut String, n: u64)
    ensures
        final(s)@ == old(s)@ + decimal_digits(n as nat),
    decreases n,
{
    if n >= 10 {
        push_decimal_digits(s, n / 10);
    }
    s.push(digit(n % 10));
    assert(s@ =~= old(s)@ + decimal_digits(n as nat));
}

/// The decimal text of `x`, as `x.to_string()` writes it.
pub fn i32_to_string(x: i32) -> (s: String)
    ensures
        s@ == decimal_string(x as int),
{
    let mut s = String::new();
    if x < 0 {
        s.push('-');
        let magnitude: u64 = (0i64 - (x as i64)) as u64;
        push_decimal_digits(&mut s, magnitude);
        assert(s@ =~= seq!['-'] + decimal_digits((-(x as int)) as nat));
    } else {
        push_decimal_digits(&mut s, x as u64);
        assert(s@ =~= decimal_digits(x as nat));
    }
    s
}


/// The text of an optional string, empty when there is none.
pub open spec fn text_or_empty(o: Option<String>) -> Seq<char> {
    match o {
        None => Seq::<char>::empty(),
        Some(s) => s@,
    }
}

/// A copy of an optional string, or the empty string when there is none.
pub fn string_or_empty(o: &Option<String>) -> (s: String)
    ensures
        s@ == text_or_empty(*o),
{
    match o {
        None => String::new(),
        Some(v) => v.clone(),
    }
}


/// The first `n` characters of `s`, or all of them when it is shorter.
pub open spec fn first_chars(s: Seq<char>, n: nat) -> Seq<char> {
    if s.len() <= n {
        s
    } else {
        s.subrange(0, n as int)
    }
}

/// The first `n` characters of `s`, as `s.chars().take(n).collect()` gives them.
pub fn take_chars(s: &str, n: usize) -> (prefix: String)
    ensures
        prefix@ == first_chars(s@, n as nat),
{
    let len = s.unicode_len();
    let end = if len <= n {
        len
    } else {
        n
    };
    let prefix = s.substring_char(0, end);
    proof {
        if len <= n {
            assert(s@.subrange(0, len as int) =~= s@);
        }
    }
    String::from_str(prefix)
}

} // verus!
