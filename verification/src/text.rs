//! Decimal rendering and parsing of unsigned integers, used for URL and
//! message building throughout the crate.

use vstd::prelude::*;

verus! {

/// The character for a single decimal digit.
pub open spec fn char_of_digit(d: nat) -> char {
    if d == 0 {
        '0'
    } else if d == 1 {
        '1'
    } else if d == 2 {
        '2'
    } else if d == 3 {
        '3'
    } else if d == 4 {
        '4'
    } else if d == 5 {
        '5'
    } else if d == 6 {
        '6'
    } else if d == 7 {
        '7'
    } else if d == 8 {
        '8'
    } else {
        '9'
    }
}

/// The canonical decimal rendering of a natural number, without leading
/// zeros (a single `'0'` for zero).
pub open spec fn dec_rep(n: nat) -> Seq<char>
    decreases n,
{
    if n < 10 {
        seq![char_of_digit(n)]
    } else {
        dec_rep(n / 10).push(char_of_digit(n % 10))
    }
}

/// Whether a character is a decimal digit.
pub open spec fn is_digit(c: char) -> bool {
    '0' <= c && c <= '9'
}

/// Whether every character of the sequence is a decimal digit.
pub open spec fn all_digits(s: Seq<char>) -> bool {
    forall|i: int| 0 <= i < s.len() ==> is_digit(#[trigger] s[i])
}

/// The numeric value of a decimal digit character.
pub open spec fn digit_val(c: char) -> nat {
    ((c as int) - ('0' as int)) as nat
}

/// The value of a sequence of decimal digit characters (most significant
/// first); the empty sequence has value zero.
pub open spec fn dec_val(s: Seq<char>) -> nat
    decreases s.len(),
{
    if s.len() == 0 {
        0
    } else {
        dec_val(s.drop_last()) * 10 + digit_val(s.last())
    }
}

/// One decimal digit as a string slice.
fn digit_str(d: u64) -> (s: &'static str)
    requires
        d < 10,
    ensures
        s@ == seq![char_of_digit(d as nat)],
{
    proof {
        reveal_strlit("0");
        reveal_strlit("1");
        reveal_strlit("2");
        reveal_strlit("3");
        reveal_strlit("4");
        reveal_strlit("5");
        reveal_strlit("6");
        reveal_strlit("7");
        reveal_strlit("8");
        reveal_strlit("9");
    }
    if d == 0 {
        "0"
    } else if d == 1 {
        "1"
    } else if d == 2 {
        "2"
    } else if d == 3 {
        "3"
    } else if d == 4 {
        "4"
    } else if d == 5 {
        "5"
    } else if d == 6 {
        "6"
    } else if d == 7 {
        "7"
    } else if d == 8 {
        "8"
    } else {
        "9"
    }
}

/// Renders an unsigned integer in decimal.
pub fn u64_to_string(n: u64) -> (s: String)
    ensures
        s@ == dec_rep(n as nat),
    decreases n,
{
    if n < 10 {
        String::from_str(digit_str(n))
    } else {
        let mut s = u64_to_string(n / 10);
        s.append(digit_str(n % 10));
        assert(s@ == dec_rep((n / 10) as nat) + seq![char_of_digit((n % 10) as nat)]);
        assert(dec_rep(n as nat) == dec_rep((n / 10) as nat).push(char_of_digit((n % 10) as nat)));
        assert(s@ =~= dec_rep(n as nat));
        s
    }
}

/// Renders a `u32` in decimal.
pub fn u32_to_string(n: u32) -> (s: String)
    ensures
        s@ == dec_rep(n as nat),
{
    u64_to_string(n as u64)
}

/// Renders a `usize` in decimal.
pub fn usize_to_string(n: usize) -> (s: String)
    ensures
        s@ == dec_rep(n as nat),
{
    u64_to_string(n as u64)
}

/// The value of a prefix of a digit sequence never exceeds the value of the
/// whole sequence.
proof fn lemma_dec_val_prefix_le(s: Seq<char>, i: int)
    requires
        0 <= i <= s.len(),
    ensures
        dec_val(s.take(i)) <= dec_val(s),
    decreases s.len(),
{
    if i < s.len() {
        assert(s.drop_last().take(i) =~= s.take(i));
        lemma_dec_val_prefix_le(s.drop_last(), i);
        assert(dec_val(s) == dec_val(s.drop_last()) * 10 + digit_val(s.last()));
        assert(dec_val(s.drop_last()) * 10 >= dec_val(s.drop_last())) by (nonlinear_arith);
    } else {
        assert(s.take(i) =~= s);
    }
}

/// Parses a decimal `u32`. Returns the value exactly when the string is
/// non-empty, consists only of decimal digits, and its value fits in a
/// `u32`; returns `None` otherwise.
pub fn parse_u32(s: &str) -> (r: Option<u32>)
    ensures
        r is Some <==> s@.len() > 0 && all_digits(s@) && dec_val(s@) <= u32::MAX,
        r is Some ==> r->0 == dec_val(s@),
{
    let n = s.unicode_len();
    if n == 0 {
        return None;
    }
    let mut value: u32 = 0;
    let mut i: usize = 0;
    while i < n
        invariant
            0 < n == s@.len(),
            0 <= i <= n,
            all_digits(s@.take(i as int)),
            value == dec_val(s@.take(i as int)),
        decreases n - i,
    {
        let c = s.get_char(i);
        assert(s@.take(i + 1).drop_last() =~= s@.take(i as int));
        assert(s@.take(i + 1).last() == s@[i as int]);
        if !(c >= '0' && c <= '9') {
            assert(s@.take(i + 1)[i as int] == c);
            assert(!all_digits(s@.take(i + 1)));
            proof {
                assert(s@.take(s@.len() as int) =~= s@);
                assert(!all_digits(s@)) by {
                    if all_digits(s@) {
                        assert(is_digit(s@[i as int]));
                    }
                }
            }
            return None;
        }
        let d: u32 = (c as u32) - 48;
        assert(d == digit_val(c));
        if value > (u32::MAX - d) / 10 {
            proof {
                assert(dec_val(s@.take(i + 1)) == value * 10 + d);
                assert(value * 10 + d > u32::MAX) by (nonlinear_arith)
                    requires
                        value > (u32::MAX - d) / 10,
                        d < 10,
                ;
                lemma_dec_val_prefix_le(s@, i + 1);
                assert(dec_val(s@) > u32::MAX);
            }
            return None;
        }
        assert(value * 10 + d <= u32::MAX) by (nonlinear_arith)
            requires
                value <= (u32::MAX - d) / 10,
                d < 10,
        ;
        value = value * 10 + d;
        i = i + 1;
    }
    assert(s@.take(n as int) =~= s@);
    Some(value)
}

/// Whether `p` is a prefix of `s`.
pub open spec fn is_prefix_of(p: Seq<char>, s: Seq<char>) -> bool {
    p.len() <= s.len() && s.take(p.len() as int) == p
}

/// Whether `sub` occurs in `s` starting at position `i`.
pub open spec fn matches_at(s: Seq<char>, sub: Seq<char>, i: int) -> bool {
    0 <= i && i + sub.len() <= s.len() && s.subrange(i, i + sub.len()) == sub
}

/// Whether `sub` occurs anywhere in `s`.
pub open spec fn has_substring(s: Seq<char>, sub: Seq<char>) -> bool {
    exists|i: int| matches_at(s, sub, i)
}

/// Whether `s` starts with `prefix`.
pub fn starts_with(s: &str, prefix: &str) -> (r: bool)
    ensures
        r == is_prefix_of(prefix@, s@),
{
    let n = s.unicode_len();
    let m = prefix.unicode_len();
    if m > n {
        assert(!is_prefix_of(prefix@, s@));
        return false;
    }
    let mut i: usize = 0;
    while i < m
        invariant
            m == prefix@.len() <= n == s@.len(),
            0 <= i <= m,
            forall|j: int| 0 <= j < i ==> s@[j] == prefix@[j],
        decreases m - i,
    {
        if s.get_char(i) != prefix.get_char(i) {
            assert(s@.take(m as int)[i as int] != prefix@[i as int]);
            return false;
        }
        i = i + 1;
    }
    assert(s@.take(m as int) =~= prefix@);
    true
}

/// Whether `sub` occurs in `s` starting exactly at `i`.
fn check_match_at(s: &str, sub: &str, i: usize) -> (r: bool)
    requires
        i + sub@.len() <= s@.len(),
    ensures
        r == matches_at(s@, sub@, i as int),
{
    let n = s.unicode_len();
    let m = sub.unicode_len();
    let mut j: usize = 0;
    while j < m
        invariant
            m == sub@.len(),
            i + m <= n == s@.len(),
            0 <= j <= m,
            forall|k: int| 0 <= k < j ==> s@[i + k] == sub@[k],
        decreases m - j,
    {
        if s.get_char(i + j) != sub.get_char(j) {
            assert(s@.subrange(i as int, i + m)[j as int] != sub@[j as int]);
            return false;
        }
        j = j + 1;
    }
    assert(s@.subrange(i as int, i + m) =~= sub@);
    true
}

/// Whether `sub` occurs anywhere in `s`.
pub fn contains_substring(s: &str, sub: &str) -> (r: bool)
    ensures
        r == has_substring(s@, sub@),
{
    let n = s.unicode_len();
    let m = sub.unicode_len();
    if m > n {
        assert(forall|i: int| !matches_at(s@, sub@, i));
        return false;
    }
    if m == 0 {
        assert(s@.subrange(0, 0) =~= sub@);
        assert(matches_at(s@, sub@, 0));
        return true;
    }
    let mut i: usize = 0;
    while i < n - m + 1
        invariant
            0 < m == sub@.len() <= n == s@.len(),
            0 <= i <= n - m + 1,
            forall|j: int| 0 <= j < i ==> !matches_at(s@, sub@, j),
        decreases n - m + 1 - i,
    {
        if check_match_at(s, sub, i) {
            return true;
        }
        i = i + 1;
    }
    assert(forall|j: int| matches_at(s@, sub@, j) ==> 0 <= j <= n - m);
    false
}

/// The first position at or after `i` where character `c` stands in `s`,
/// or the length of `s` when there is none.
pub open spec fn find_char_from(s: Seq<char>, c: char, i: int) -> int
    decreases s.len() - i,
{
    if i < 0 || i >= s.len() {
        s.len() as int
    } else if s[i] == c {
        i
    } else {
        find_char_from(s, c, i + 1)
    }
}

/// Basic bounds of [`find_char_from`].
pub proof fn lemma_find_char_from_bounds(s: Seq<char>, c: char, i: int)
    requires
        0 <= i <= s.len(),
    ensures
        i <= find_char_from(s, c, i) <= s.len(),
        find_char_from(s, c, i) < s.len() ==> s[find_char_from(s, c, i)] == c,
        forall|j: int| i <= j < find_char_from(s, c, i) ==> s[j] != c,
    decreases s.len() - i,
{
    if i < s.len() && s[i] != c {
        lemma_find_char_from_bounds(s, c, i + 1);
    }
}

/// Finds the first occurrence of `c` in `s` at or after position `from`.
pub fn find_char(s: &str, c: char, from: usize) -> (r: usize)
    requires
        from <= s@.len(),
    ensures
        r == find_char_from(s@, c, from as int),
{
    let n = s.unicode_len();
    let mut i: usize = from;
    while i < n
        invariant
            from <= i <= n == s@.len(),
            find_char_from(s@, c, from as int) == find_char_from(s@, c, i as int),
        decreases n - i,
    {
        if s.get_char(i) == c {
            return i;
        }
        i = i + 1;
    }
    i
}

/// Whether two strings hold the same characters.
pub fn str_eq(a: &str, b: &str) -> (r: bool)
    ensures
        r == (a@ == b@),
{
    let n = a.unicode_len();
    let m = b.unicode_len();
    if n != m {
        return false;
    }
    let mut i: usize = 0;
    while i < n
        invariant
            n == a@.len() == b@.len(),
            0 <= i <= n,
            forall|j: int| 0 <= j < i ==> a@[j] == b@[j],
        decreases n - i,
    {
        if a.get_char(i) != b.get_char(i) {
            return false;
        }
        i = i + 1;
    }
    assert(a@ =~= b@);
    true
}

/// The first position at or after `i` where `sub` occurs in `s`, if any.
pub open spec fn first_match(s: Seq<char>, sub: Seq<char>, i: int) -> Option<int>
    decreases s.len() + 1 - i,
{
    if i < 0 || i + sub.len() > s.len() {
        None
    } else if matches_at(s, sub, i) {
        Some(i)
    } else {
        first_match(s, sub, i + 1)
    }
}

/// What a successful [`first_match`] means: the position matches and is
/// at or after the start of the search.
pub proof fn lemma_first_match_props(s: Seq<char>, sub: Seq<char>, i: int)
    requires
        0 <= i,
    ensures
        first_match(s, sub, i) matches Some(k) ==> i <= k && matches_at(s, sub, k),
    decreases s.len() + 1 - i,
{
    if !(i < 0 || i + sub.len() > s.len()) && !matches_at(s, sub, i) {
        lemma_first_match_props(s, sub, i + 1);
    }
}

/// Finds the first occurrence of `sub` in `s`.
pub fn find_substring(s: &str, sub: &str) -> (r: Option<usize>)
    ensures
        r is Some <==> first_match(s@, sub@, 0) is Some,
        r matches Some(k) ==> first_match(s@, sub@, 0) == Some(k as int),
{
    let n = s.unicode_len();
    let m = sub.unicode_len();
    if m > n {
        return None;
    }
    if m == 0 {
        proof {
            assert(s@.subrange(0, 0) =~= sub@);
            assert(matches_at(s@, sub@, 0));
        }
        return Some(0);
    }
    let mut i: usize = 0;
    while i < n - m + 1
        invariant
            0 < m == sub@.len() <= n == s@.len(),
            0 <= i <= n - m + 1,
            first_match(s@, sub@, 0) == first_match(s@, sub@, i as int),
        decreases n - m + 1 - i,
    {
        if check_match_at(s, sub, i) {
            return Some(i);
        }
        i = i + 1;
    }
    None
}

/// The pieces of `s` cut at every occurrence of `sep`; `sep` itself is
/// dropped. A string without `sep` is one piece; every occurrence of
/// `sep` adds one.
pub open spec fn split_chars(s: Seq<char>, sep: char) -> Seq<Seq<char>>
    decreases s.len(),
{
    let i = find_char_from(s, sep, 0);
    if 0 <= i < s.len() {
        seq![s.take(i)].add(split_chars(s.skip(i + 1), sep))
    } else {
        seq![s]
    }
}

/// Splits `s` at every occurrence of `sep`.
pub fn split_str(s: &str, sep: char) -> (r: Vec<String>)
    ensures
        r@.map_values(|t: String| t@) == split_chars(s@, sep),
        r@.len() > 0,
    decreases s@.len(),
{
    let n = s.unicode_len();
    proof {
        lemma_find_char_from_bounds(s@, sep, 0);
    }
    let i = find_char(s, sep, 0);
    if i >= n {
        let mut v: Vec<String> = Vec::new();
        v.push(s.to_owned());
        assert(v@.map_values(|t: String| t@) =~= split_chars(s@, sep));
        v
    } else {
        let head = s.substring_char(0, i).to_owned();
        let rest = s.substring_char(i + 1, n);
        proof {
            assert(rest@ =~= s@.skip(i + 1));
        }
        let mut v = split_str(rest, sep);
        v.insert(0, head);
        proof {
            let parts = split_chars(s@, sep);
            let sub = split_chars(s@.skip(i + 1), sep);
            assert(parts == seq![s@.take(i as int)].add(sub));
            assert(v@.map_values(|t: String| t@) =~= parts) by {
                assert(v@.map_values(|t: String| t@).len() == parts.len());
                assert(v@.map_values(|t: String| t@)[0] == s@.take(i as int));
                assert(forall|k: int|
                    1 <= k < v@.len() ==> v@.map_values(|t: String| t@)[k] == #[trigger] v@[k]@);
                assert(forall|k: int| 1 <= k < v@.len() ==> v@[k]@ == sub[k - 1]);
            }
        }
        v
    }
}

} // verus!
