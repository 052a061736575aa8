//! Decimal rendering of integers and fixed-point values, and small string helpers.
use vstd::prelude::*;
use vstd::string::StringExecFns;

verus! {

/// The character of a decimal digit.
pub open spec fn digit_char(d: nat) -> char {
    if d == 0 {
        '0'
    } else if d == 1 {
        '1'
    } else if d == 2 {
        '2'
    } else if d == 3 {
        '3'
    } else if d == 4 {
        '4'
    } else if d == 5 {
        '5'
    } else if d == 6 {
        '6'
    } else if d == 7 {
        '7'
    } else if d == 8 {
        '8'
    } else {
        '9'
    }
}

/// The decimal representation of `n`, without leading zeros ("0" for zero).
pub open spec fn decimal(n: nat) -> Seq<char>
    decreases n,
{
    if n < 10 {
        seq![digit_char(n)]
    } else {
        decimal(n / 10).push(digit_char(n % 10))
    }
}

/// A value given in tenths, written with exactly one decimal place ("62.0").
pub open spec fn tenths_text(t: nat) -> Seq<char> {
    decimal(t / 10) + seq!['.'] + decimal(t % 10)
}

/// `n / d` rounded to the nearest integer, an exact half rounded to the even one
/// (as one-decimal formatting of a float does).
pub open spec fn rounded_div(n: nat, d: nat) -> nat
    recommends
        d > 0,
{
    let q = n / d;
    let r = n % d;
    if 2 * r > d {
        q + 1
    } else if 2 * r < d {
        q
    } else if q % 2 == 0 {
        q
    } else {
        q + 1
    }
}

/// `n / d` rounded to the nearest integer, an exact half rounded to the even one.
pub fn div_round_even(n: u128, d: u128) -> (r: u128)
    requires
        d > 0,
    ensures
        r == rounded_div(n as nat, d as nat),
        r <= n / d + 1,
{
    let q = n / d;
    let rem = n % d;
    if rem > d - rem || (rem == d - rem && q % 2 == 1) {
        proof {
            assert(rem > 0);
            assert(d >= 2);
            assert(q <= n / 2) by (nonlinear_arith)
                requires q == n / d, d >= 2;
        }
        q + 1
    } else {
        q
    }
}

/// `count` copies of `c`.
pub open spec fn repeat(c: char, count: nat) -> Seq<char>
    decreases count,
{
    if count == 0 {
        Seq::empty()
    } else {
        repeat(c, (count - 1) as nat).push(c)
    }
}

/// `s` padded on the left with `fill` up to `width` characters.
pub open spec fn pad_left(s: Seq<char>, fill: char, width: nat) -> Seq<char> {
    if s.len() < width {
        repeat(fill, (width - s.len()) as nat) + s
    } else {
        s
    }
}

fn digit_str(d: u8) -> (r: &'static str)
    requires
        d < 10,
    ensures
        r@ == seq![digit_char(d as nat)],
{
    if d == 0 {
        proof { reveal_strlit("0"); }
        "0"
    } else if d == 1 {
        proof { reveal_strlit("1"); }
        "1"
    } else if d == 2 {
        proof { reveal_strlit("2"); }
        "2"
    } else if d == 3 {
        proof { reveal_strlit("3"); }
        "3"
    } else if d == 4 {
        proof { reveal_strlit("4"); }
        "4"
    } else if d == 5 {
        proof { reveal_strlit("5"); }
        "5"
    } else if d == 6 {
        proof { reveal_strlit("6"); }
        "6"
    } else if d == 7 {
        proof { reveal_strlit("7"); }
        "7"
    } else if d == 8 {
        proof { reveal_strlit("8"); }
        "8"
    } else {
        proof { reveal_strlit("9"); }
        "9"
    }
}

/// Appends the decimal representation of `n` to `s`.
pub fn push_decimal(s: &mut String, n: u128)
    ensures
        final(s)@ == old(s)@ + decimal(n as nat),
    decreases n,
{
    if n >= 10 {
        push_decimal(s, n / 10);
    }
    let d = (n % 10) as u8;
    s.append(digit_str(d));
    assert(final(s)@ =~= old(s)@ + decimal(n as nat));
}

/// The decimal representation of `n`.
pub fn decimal_string(n: u128) -> (r: String)
    ensures
        r@ == decimal(n as nat),
{
    let mut s = String::new();
    push_decimal(&mut s, n);
    assert(s@ =~= decimal(n as nat));
    s
}

/// Appends a value given in tenths with one decimal place ("62.0").
pub fn push_tenths(s: &mut String, t: u128)
    ensures
        final(s)@ == old(s)@ + tenths_text(t as nat),
{
    push_decimal(s, t / 10);
    proof { reveal_strlit("."); }
    s.append(".");
    push_decimal(s, t % 10);
    assert(final(s)@ =~= old(s)@ + tenths_text(t as nat));
}

/// Appends `count` copies of the single-character string `c`.
pub fn push_repeat(s: &mut String, c: &str, count: usize)
    requires
        c@.len() == 1,
    ensures
        final(s)@ == old(s)@ + repeat(c@[0], count as nat),
{
    let mut i: usize = 0;
    while i < count
        invariant
            i <= count,
            c@.len() == 1,
            s@ == old(s)@ + repeat(c@[0], i as nat),
        decreases count - i,
    {
        s.append(c);
        i = i + 1;
        assert(s@ =~= old(s)@ + repeat(c@[0], i as nat));
    }
}

/// Appends `t` padded on the left with the single-character string `fill` up to `width`.
pub fn push_padded(s: &mut String, t: &str, fill: &str, width: usize)
    requires
        fill@.len() == 1,
    ensures
        final(s)@ == old(s)@ + pad_left(t@, fill@[0], width as nat),
{
    let n = t.unicode_len();
    if n < width {
        push_repeat(s, fill, width - n);
    }
    s.append(t);
    assert(final(s)@ =~= old(s)@ + pad_left(t@, fill@[0], width as nat));
}

/// Whether `needle` occurs in `hay` as a contiguous run of characters.
pub open spec fn occurs_in(needle: Seq<char>, hay: Seq<char>) -> bool {
    exists|i: int| 0 <= i && i + needle.len() <= hay.len() && #[trigger] hay.subrange(i, i + needle.len()) == needle
}

/// Whether `needle` occurs in `hay`.
pub fn contains_text(hay: &str, needle: &str) -> (r: bool)
    ensures
        r == occurs_in(needle@, hay@),
{
    let n = hay.unicode_len();
    let m = needle.unicode_len();
    if m > n {
        return false;
    }
    let mut i: usize = 0;
    while i <= n - m
        invariant
            m <= n,
            n == hay@.len(),
            m == needle@.len(),
            i <= n - m + 1,
            forall|k: int| 0 <= k < i ==> #[trigger] hay@.subrange(k, k + m) != needle@,
        decreases n - m + 1 - i,
    {
        let part = hay.substring_char(i, i + m);
        let mut j: usize = 0;
        let mut same = true;
        while j < m
            invariant
                i + m <= n,
                n == hay@.len(),
                part@ == hay@.subrange(i as int, i + m),
                m == needle@.len(),
                j <= m,
                same == (forall|k: int| 0 <= k < j ==> part@[k] == needle@[k]),
            decreases m - j,
        {
            if part.get_char(j) != needle.get_char(j) {
                same = false;
            }
            j = j + 1;
        }
        if same {
            assert(hay@.subrange(i as int, i + m) =~= needle@);
            return true;
        }
        assert(hay@.subrange(i as int, i + m) != needle@) by {
            if hay@.subrange(i as int, i + m) == needle@ {
                assert(forall|k: int| 0 <= k < m ==> part@[k] == needle@[k]);
            }
        }
        i = i + 1;
    }
    assert forall|k: int| 0 <= k && k + needle@.len() <= hay@.len() implies #[trigger] hay@.subrange(k, k + needle@.len()) != needle@ by {
        assert(k < i);
    }
    false
}

} // verus!
