//! Verified string helpers: character extraction, ASCII case-insensitive
//! comparison, whitespace trimming, truncation to a character count, and
//! decimal rendering of integers.

use vstd::prelude::*;

verus! {

broadcast use vstd::string::axiom_spec_iter;

/// ASCII uppercase letter.
pub open spec fn is_ascii_upper(c: char) -> bool {
    65 <= c as int && c as int <= 90
}

/// Two characters are equal up to ASCII case.
pub open spec fn char_eq_ci(a: char, b: char) -> bool {
    ||| a == b
    ||| (is_ascii_upper(a) && a as int + 32 == b as int)
    ||| (is_ascii_upper(b) && b as int + 32 == a as int)
}

/// Two character sequences are equal up to ASCII case.
pub open spec fn seq_eq_ci(a: Seq<char>, b: Seq<char>) -> bool {
    a.len() == b.len() && forall|i: int| 0 <= i < a.len() ==> char_eq_ci(a[i], b[i])
}

/// Whitespace as trimming understands it: the ASCII whitespace characters.
pub open spec fn is_ws(c: char) -> bool {
    c as int == 32 || (9 <= c as int && c as int <= 13)
}

/// The sequence with leading whitespace removed.
pub open spec fn trim_front(s: Seq<char>) -> Seq<char>
    decreases s.len(),
{
    if s.len() > 0 && is_ws(s[0]) {
        trim_front(s.drop_first())
    } else {
        s
    }
}

/// The sequence with trailing whitespace removed.
pub open spec fn trim_back(s: Seq<char>) -> Seq<char>
    decreases s.len(),
{
    if s.len() > 0 && is_ws(s[s.len() - 1]) {
        trim_back(s.drop_last())
    } else {
        s
    }
}

/// The sequence with whitespace removed from both ends.
pub open spec fn trim_seq(s: Seq<char>) -> Seq<char> {
    trim_back(trim_front(s))
}

/// The decimal digit character for a value below ten.
pub open spec fn dec_digit(d: int) -> char {
    if d == 0 { '0' }
    else if d == 1 { '1' }
    else if d == 2 { '2' }
    else if d == 3 { '3' }
    else if d == 4 { '4' }
    else if d == 5 { '5' }
    else if d == 6 { '6' }
    else if d == 7 { '7' }
    else if d == 8 { '8' }
    else { '9' }
}

/// The decimal rendering of a nonnegative integer, most significant digit
/// first, with no leading zeros (a lone zero for zero itself).
pub open spec fn dec_str(n: int) -> Seq<char>
    decreases n,
{
    if n < 10 {
        seq![dec_digit(n)]
    } else {
        dec_str(n / 10).push(dec_digit(n % 10))
    }
}

/// Relies on String::push from std: appends exactly the given character.
#[verifier::external_body]
pub fn push_char(s: &mut String, c: char)
    ensures
        final(s)@ == old(s)@ + seq![c],
{
    s.push(c)
}

/// The characters of a string slice, in order.
pub fn chars_vec(s: &str) -> (r: Vec<char>)
    ensures
        r@ == s@,
{
    let mut v: Vec<char> = Vec::new();
    for c in it: s.chars()
        invariant
            it.seq() == s@,
            v@ == it.seq().take(it.index() as int),
    {
        v.push(c);
    }
    assert(v@ =~= s@);
    v
}

/// Exact equality of two string slices.
pub fn str_eq(a: &str, b: &str) -> (r: bool)
    ensures
        r == (a@ == b@),
{
    let va = chars_vec(a);
    let vb = chars_vec(b);
    if va.len() != vb.len() {
        assert(a@.len() != b@.len());
        return false;
    }
    let mut i: usize = 0;
    while i < va.len()
        invariant
            va@ == a@,
            vb@ == b@,
            va.len() == vb.len(),
            i <= va.len(),
            forall|j: int| 0 <= j < i ==> a@[j] == b@[j],
        decreases va.len() - i,
    {
        if va[i] != vb[i] {
            assert(a@[i as int] != b@[i as int]);
            return false;
        }
        i = i + 1;
    }
    assert(a@ =~= b@);
    true
}

/// Equality of two character vectors up to ASCII case.
pub fn chars_eq_ci(a: &Vec<char>, b: &Vec<char>) -> (r: bool)
    ensures
        r == seq_eq_ci(a@, b@),
{
    if a.len() != b.len() {
        return false;
    }
    let mut i: usize = 0;
    while i < a.len()
        invariant
            a.len() == b.len(),
            i <= a.len(),
            forall|j: int| 0 <= j < i ==> char_eq_ci(a@[j], b@[j]),
        decreases a.len() - i,
    {
        if !char_eq_ci_exec(a[i], b[i]) {
            return false;
        }
        i = i + 1;
    }
    true
}

/// Whether two characters are equal up to ASCII case.
pub fn char_eq_ci_exec(a: char, b: char) -> (r: bool)
    ensures
        r == char_eq_ci(a, b),
{
    let au = a as u32;
    let bu = b as u32;
    au == bu
        || (65 <= au && au <= 90 && au + 32 == bu)
        || (65 <= bu && bu <= 90 && bu + 32 == au)
}

/// Whether a character counts as whitespace for trimming.
pub fn is_ws_exec(c: char) -> (r: bool)
    ensures
        r == is_ws(c),
{
    let cu = c as u32;
    cu == 32 || (9 <= cu && cu <= 13)
}

/// The string made of the characters of `v` from `from` to `to`.
pub fn string_of_chars(v: &Vec<char>, from: usize, to: usize) -> (r: String)
    requires
        from <= to <= v@.len(),
    ensures
        r@ == v@.subrange(from as int, to as int),
{
    let mut s = String::new();
    let mut i: usize = from;
    while i < to
        invariant
            from <= i <= to <= v@.len(),
            s@ == v@.subrange(from as int, i as int),
        decreases to - i,
    {
        push_char(&mut s, v[i]);
        assert(v@.subrange(from as int, i as int).push(v@[i as int]) =~= v@.subrange(
            from as int,
            i + 1 as int,
        ));
        i = i + 1;
    }
    s
}

/// The string with ASCII whitespace removed from both ends.
pub fn trim_str(s: &str) -> (r: String)
    ensures
        r@ == trim_seq(s@),
{
    let v = chars_vec(s);
    let mut start: usize = 0;
    assert(s@.skip(0) =~= s@);
    while start < v.len() && is_ws_exec(v[start])
        invariant
            start <= v@.len(),
            v@ == s@,
            trim_front(s@) == trim_front(s@.skip(start as int)),
        decreases v.len() - start,
    {
        assert(s@.skip(start as int).drop_first() =~= s@.skip(start + 1 as int));
        start = start + 1;
    }
    assert(trim_front(s@) =~= s@.skip(start as int));
    let mut end: usize = v.len();
    assert(s@.skip(start as int).take(end - start as int) =~= s@.skip(start as int));
    while end > start && is_ws_exec(v[end - 1])
        invariant
            start <= end <= v@.len(),
            v@ == s@,
            trim_front(s@) == s@.skip(start as int),
            trim_back(s@.skip(start as int)) == trim_back(
                s@.skip(start as int).take(end - start as int),
            ),
        decreases end,
    {
        assert(s@.skip(start as int).take(end - start as int).drop_last() =~= s@.skip(
            start as int,
        ).take(end - 1 - start as int));
        end = end - 1;
    }
    assert(trim_back(s@.skip(start as int)) =~= s@.skip(start as int).take(end - start as int));
    let r = string_of_chars(&v, start, end);
    assert(v@.subrange(start as int, end as int) =~= s@.skip(start as int).take(
        end - start as int,
    ));
    r
}

/// The first `n` characters of the string, or all of it if it is shorter.
pub fn take_chars(s: &str, n: usize) -> (r: String)
    ensures
        r@ == (if s@.len() <= n { s@ } else { s@.take(n as int) }),
{
    let v = chars_vec(s);
    if v.len() <= n {
        let r = string_of_chars(&v, 0, v.len());
        assert(v@.subrange(0, v@.len() as int) =~= s@);
        r
    } else {
        let r = string_of_chars(&v, 0, n);
        assert(v@.subrange(0, n as int) =~= s@.take(n as int));
        r
    }
}

/// The decimal digit character for a value below ten.
pub fn digit_char(d: u64) -> (c: char)
    requires
        d < 10,
    ensures
        c == dec_digit(d as int),
{
    if d == 0 { '0' }
    else if d == 1 { '1' }
    else if d == 2 { '2' }
    else if d == 3 { '3' }
    else if d == 4 { '4' }
    else if d == 5 { '5' }
    else if d == 6 { '6' }
    else if d == 7 { '7' }
    else if d == 8 { '8' }
    else { '9' }
}

/// The decimal rendering of an unsigned integer.
pub fn u64_to_string(n: u64) -> (r: String)
    ensures
        r@ == dec_str(n as int),
    decreases n,
{
    if n < 10 {
        let mut s = String::new();
        push_char(&mut s, digit_char(n));
        assert(s@ =~= dec_str(n as int));
        s
    } else {
        let mut s = u64_to_string(n / 10);
        push_char(&mut s, digit_char(n % 10));
        assert(s@ =~= dec_str(n as int));
        s
    }
}

} // verus!
