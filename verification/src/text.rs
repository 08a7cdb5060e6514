//! Helpers on strings, seen as sequences of characters.

use vstd::prelude::*;
use vstd::string::*;

verus! {

/// `String::push` appends one character at the end.
pub assume_specification[ String::push ](s: &mut String, c: char)
    ensures
        final(s)@ == old(s)@.push(c),
;

/// `==` on string slices compares them character by character.
pub assume_specification[ <str as PartialEq>::eq ](a: &str, b: &str) -> (r: bool)
    ensures
        r == (a@ == b@),
;

/// `s` as `Debug` prints a string: between double quotes, escaped as Rust
/// escapes.
pub uninterp spec fn rust_debug(s: Seq<char>) -> Seq<char>;

/// `s` as `Debug` prints it.
///
/// Trusted: formats a string slice with `{:?}`. Claims only that the outcome
/// is the value named `rust_debug`.
#[verifier::external_body]
pub(crate) fn debug_quoted(s: &str) -> (quoted: String)
    ensures
        quoted@ == rust_debug(s@),
{
    format!("{:?}", s)
}

/// Empties `s` after overwriting its memory with zeros.
///
/// Trusted: calls `Zeroize::zeroize` on a `String`, which zeroes the buffer
/// and then clears it.
#[verifier::external_body]
pub(crate) fn wipe(s: &mut String)
    ensures
        final(s)@ == Seq::<char>::empty(),
{
    secrecy::zeroize::Zeroize::zeroize(s)
}

/// The texts of a sequence of strings.
pub open spec fn texts(v: Seq<String>) -> Seq<Seq<char>> {
    v.map_values(|s: String| s@)
}

/// The characters of `s`, in order.
pub fn chars_of(s: &str) -> (v: Vec<char>)
    ensures
        v@ == s@,
{
    let mut v: Vec<char> = Vec::new();
    for c in it: s.chars()
        invariant
            it.seq() == s@,
            v@ == it.seq().take(it.index()),
    {
        v.push(c);
    }
    assert(v@ == s@);
    v
}

/// The string made of the characters `v[from..to]`.
pub(crate) fn string_of(v: &Vec<char>, from: usize, to: usize) -> (s: String)
    requires
        from <= to <= v.len(),
    ensures
        s@ == v@.subrange(from as int, to as int),
{
    let mut s = String::new();
    let mut i: usize = from;
    while i < to
        invariant
            from <= i <= to <= v.len(),
            s@ == v@.subrange(from as int, i as int),
        decreases to - i,
    {
        s.push(v[i]);
        i += 1;
    }
    s
}

/// `a` followed by `b`.
pub fn join(a: &str, b: &str) -> (s: String)
    ensures
        s@ == a@ + b@,
{
    let mut s = a.to_owned();
    s.append(b);
    s
}

/// `a`, then `b`, then `c`.
pub fn join3(a: &str, b: &str, c: &str) -> (s: String)
    ensures
        s@ == a@ + b@ + c@,
{
    let mut s = a.to_owned();
    s.append(b);
    s.append(c);
    s
}

/// The character that stands for the digit `d`.
pub open spec fn digit_char(d: nat) -> char
    recommends
        d < 10,
{
    if d == 0 {
        '0'
    } else if d == 1 {
        '1'
    } else if d == 2 {
        '2'
    } else if d == 3 {
        '3'
    } else if d == 4 {
        '4'
    } else if d == 5 {
        '5'
    } else if d == 6 {
        '6'
    } else if d == 7 {
        '7'
    } else if d == 8 {
        '8'
    } else {
        '9'
    }
}

/// The decimal numeral of `n`, without leading zeros.
pub open spec fn decimal(n: nat) -> Seq<char>
    decreases n,
{
    if n < 10 {
        seq![digit_char(n)]
    } else {
        decimal(n / 10).push(digit_char(n % 10))
    }
}

fn digit(d: u64) -> (c: char)
    requires
        d < 10,
    ensures
        c == digit_char(d as nat),
{
    if d == 0 {
        '0'
    } else if d == 1 {
        '1'
    } else if d == 2 {
        '2'
    } else if d == 3 {
        '3'
    } else if d == 4 {
        '4'
    } else if d == 5 {
        '5'
    } else if d == 6 {
        '6'
    } else if d == 7 {
        '7'
    } else if d == 8 {
        '8'
    } else {
        '9'
    }
}

/// Writes `n` in decimal.
pub fn decimal_string(n: u64) -> (s: String)
    ensures
        s@ == decimal(n as nat),
{
    let mut digits: Vec<char> = Vec::new();
    let mut rest: u64 = n;
    while rest >= 10
        invariant
            decimal(n as nat) == decimal(rest as nat) + digits@.reverse(),
        decreases rest,
    {
        let d = digit(rest % 10);
        proof {
            let before = digits@;
            assert(before.push(d).reverse() =~= seq![d] + before.reverse());
            assert(decimal(rest as nat) == decimal((rest / 10) as nat).push(d));
            assert(decimal((rest / 10) as nat).push(d) + before.reverse() =~= decimal(
                (rest / 10) as nat,
            ) + (seq![d] + before.reverse()));
        }
        digits.push(d);
        rest = rest / 10;
    }
    let first = digit(rest);
    let mut s = String::new();
    s.push(first);
    let mut i: usize = digits.len();
    while i > 0
        invariant
            i <= digits.len(),
            s@ == seq![first] + digits@.reverse().take(digits.len() - i),
        decreases i,
    {
        i -= 1;
        proof {
            let r = digits@.reverse();
            let k = digits.len() - i - 1;
            assert(r[k] == digits@[i as int]);
            assert(r.take(k + 1) =~= r.take(k).push(r[k]));
        }
        s.push(digits[i]);
    }
    proof {
        let r = digits@.reverse();
        assert(r.take(digits.len() as int) =~= r);
        assert(decimal(rest as nat) == seq![first]);
    }
    s
}


/// Where `c` first stands in `s` at or after `from`; the length of `s`
/// where it stands nowhere there.
pub open spec fn first_at(s: Seq<char>, c: char, from: int) -> int
    decreases s.len() - from,
{
    if from < 0 || from >= s.len() || s[from] == c {
        from
    } else {
        first_at(s, c, from + 1)
    }
}

/// What `first_at` finds lies between `from` and the end, `c` stands
/// there if it is before the end, and `c` does not stand before it.
pub proof fn lemma_first_at(s: Seq<char>, c: char, from: int)
    requires
        0 <= from <= s.len(),
    ensures
        from <= first_at(s, c, from) <= s.len(),
        first_at(s, c, from) < s.len() ==> s[first_at(s, c, from)] == c,
        forall|i: int| from <= i < first_at(s, c, from) ==> s[i] != c,
    decreases s.len() - from,
{
    if from < s.len() && s[from] != c {
        lemma_first_at(s, c, from + 1);
    }
}

/// Finds where `c` first stands in `chars` at or after `from`.
pub(crate) fn find_char(chars: &Vec<char>, c: char, from: usize) -> (at: usize)
    requires
        from <= chars.len(),
    ensures
        at == first_at(chars@, c, from as int),
        from <= at <= chars.len(),
{
    let mut at: usize = from;
    while at < chars.len() && chars[at] != c
        invariant
            from <= at <= chars.len(),
            first_at(chars@, c, from as int) == first_at(chars@, c, at as int),
        decreases chars.len() - at,
    {
        at += 1;
    }
    at
}

} // verus!
