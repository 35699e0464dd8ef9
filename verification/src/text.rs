//! Decimal rendering of integers, as `{}` and `{:02}` print them.

use vstd::prelude::*;

verus! {

/// The character of a decimal digit.
pub open spec fn digit_char(d: nat) -> char {
    if d == 0 {
        '0'
    } else if d == 1 {
        '1'
    } else if d == 2 {
        '2'
    } else if d == 3 {
        '3'
    } else if d == 4 {
        '4'
    } else if d == 5 {
        '5'
    } else if d == 6 {
        '6'
    } else if d == 7 {
        '7'
    } else if d == 8 {
        '8'
    } else {
        '9'
    }
}

/// The decimal digits of `n`, without leading zeros ("0" for zero).
pub open spec fn decimal(n: nat) -> Seq<char>
    decreases n,
{
    if n < 10 {
        seq![digit_char(n)]
    } else {
        decimal(n / 10) + seq![digit_char(n % 10)]
    }
}

/// How `{}` prints a signed integer: a minus sign before the digits of a negative number.
pub open spec fn signed_decimal(n: int) -> Seq<char> {
    if n < 0 {
        seq!['-'] + decimal((-n) as nat)
    } else {
        decimal(n as nat)
    }
}

/// How `{:02}` prints an unsigned integer: at least two digits, padded with a leading zero.
pub open spec fn padded2(n: nat) -> Seq<char> {
    if n < 10 {
        seq!['0', digit_char(n)]
    } else {
        decimal(n)
    }
}

fn digit_str(d: u64) -> (s: &'static str)
    requires
        d < 10,
    ensures
        s@ == seq![digit_char(d as nat)],
{
    if d == 0 {
        proof { reveal_strlit("0"); }
        "0"
    } else if d == 1 {
        proof { reveal_strlit("1"); }
        "1"
    } else if d == 2 {
        proof { reveal_strlit("2"); }
        "2"
    } else if d == 3 {
        proof { reveal_strlit("3"); }
        "3"
    } else if d == 4 {
        proof { reveal_strlit("4"); }
        "4"
    } else if d == 5 {
        proof { reveal_strlit("5"); }
        "5"
    } else if d == 6 {
        proof { reveal_strlit("6"); }
        "6"
    } else if d == 7 {
        proof { reveal_strlit("7"); }
        "7"
    } else if d == 8 {
        proof { reveal_strlit("8"); }
        "8"
    } else {
        proof { reveal_strlit("9"); }
        "9"
    }
}

/// Appends the decimal digits of `n` to `s`.
pub fn push_decimal(s: &mut String, n: u64)
    ensures
        final(s)@ == old(s)@ + decimal(n as nat),
    decreases n,
{
    if n >= 10 {
        push_decimal(s, n / 10);
    }
    s.append(digit_str(n % 10));
    assert(s@ =~= old(s)@ + decimal(n as nat)) by {
        if n >= 10 {
            assert(decimal(n as nat) == decimal((n / 10) as nat) + seq![digit_char((n % 10) as nat)]);
        }
    }
}

/// Appends a signed integer to `s` as `{}` prints it.
pub fn push_signed_decimal(s: &mut String, n: i64)
    ensures
        final(s)@ == old(s)@ + signed_decimal(n as int),
{
    if n < 0 {
        proof { reveal_strlit("-"); }
        s.append("-");
        // The magnitude of i64::MIN does not fit in i64, but it does in u64.
        let magnitude: u64 = if n == i64::MIN {
            9223372036854775808u64
        } else {
            (-n) as u64
        };
        push_decimal(s, magnitude);
        assert(s@ =~= old(s)@ + signed_decimal(n as int));
    } else {
        push_decimal(s, n as u64);
    }
}

/// Appends `n` to `s` as `{:02}` prints it.
pub fn push_padded2(s: &mut String, n: u64)
    ensures
        final(s)@ == old(s)@ + padded2(n as nat),
{
    if n < 10 {
        proof { reveal_strlit("0"); }
        s.append("0");
        push_decimal(s, n);
        assert(s@ =~= old(s)@ + padded2(n as nat));
    } else {
        push_decimal(s, n);
    }
}

/// The message with which a numeric id that names no kind is refused:
/// `prefix` followed by the id as `{}` prints it.
pub fn unknown_id_message(prefix: &str, id: i64) -> (m: String)
    ensures
        m@ == prefix@ + signed_decimal(id as int),
{
    let mut m = String::from_str(prefix);
    push_signed_decimal(&mut m, id);
    m
}

/// Whether the text `s` begins with the text `prefix`.
pub open spec fn has_prefix(s: Seq<char>, prefix: Seq<char>) -> bool {
    prefix.len() <= s.len() && s.subrange(0, prefix.len() as int) == prefix
}

/// Whether `s` begins with `prefix`, as `str::starts_with` with a string pattern answers.
pub fn starts_with(s: &str, prefix: &str) -> (b: bool)
    ensures
        b == has_prefix(s@, prefix@),
{
    let n = s.unicode_len();
    let m = prefix.unicode_len();
    if m > n {
        return false;
    }
    let mut i: usize = 0;
    while i < m
        invariant
            n == s@.len(),
            m == prefix@.len(),
            m <= n,
            i <= m,
            forall|j: int| 0 <= j < i ==> s@[j] == prefix@[j],
        decreases m - i,
    {
        if s.get_char(i) != prefix.get_char(i) {
            assert(s@.subrange(0, m as int)[i as int] != prefix@[i as int]);
            return false;
        }
        i = i + 1;
    }
    assert(s@.subrange(0, m as int) =~= prefix@);
    true
}

/// The number a string of decimal digits stands for, read left to right.
pub open spec fn read_decimal(s: Seq<char>) -> int
    decreases s.len(),
{
    if s.len() == 0 {
        0
    } else {
        read_decimal(s.drop_last()) * 10 + (s.last() as int - '0' as int)
    }
}

/// `c` is one of the characters `0` to `9`.
pub open spec fn is_digit(c: char) -> bool {
    '0' as int <= c as int <= '9' as int
}

/// A digit's character is `0` moved on by the digit.
pub proof fn digit_chars_are_digits(d: nat)
    requires
        d < 10,
    ensures
        digit_char(d) as int == '0' as int + d,
        is_digit(digit_char(d)),
{
}

/// `decimal(n)` is how `n` is written in base ten: only digits, at least
/// one, no leading zero unless `n` is zero, and read back it gives `n`.
pub proof fn decimal_writes_the_number(n: nat)
    ensures
        decimal(n).len() >= 1,
        forall|i: int| 0 <= i < decimal(n).len() ==> is_digit(#[trigger] decimal(n)[i]),
        decimal(n)[0] == '0' ==> n == 0,
        read_decimal(decimal(n)) == n,
    decreases n,
{
    if n < 10 {
        digit_chars_are_digits(n);
        assert(decimal(n).drop_last() =~= Seq::<char>::empty());
        assert(read_decimal(Seq::<char>::empty()) == 0);
        assert(decimal(n).last() == digit_char(n));
        assert(read_decimal(decimal(n)) == read_decimal(decimal(n).drop_last()) * 10 + (
        decimal(n).last() as int - '0' as int));
    } else {
        decimal_writes_the_number(n / 10);
        digit_chars_are_digits(n % 10);
        let d = decimal(n);
        assert(d.drop_last() =~= decimal(n / 10));
        assert(d[0] == decimal(n / 10)[0]);
        assert forall|i: int| 0 <= i < d.len() implies is_digit(#[trigger] d[i]) by {
            if i < decimal(n / 10).len() {
                assert(d[i] == decimal(n / 10)[i]);
            }
        }
        assert(d.last() == digit_char(n % 10));
        assert(read_decimal(d) == read_decimal(d.drop_last()) * 10 + (d.last() as int - '0' as int));
        assert(read_decimal(d) == (n / 10) * 10 + n % 10);
        assert(n / 10 * 10 + n % 10 == n);
    }
}

/// `padded2(n)` writes `n` with at least two digits: a leading zero for
/// one digit, otherwise the plain decimal; read back it gives `n`.
pub proof fn padded2_writes_the_number(n: nat)
    ensures
        padded2(n).len() >= 2,
        forall|i: int| 0 <= i < padded2(n).len() ==> is_digit(#[trigger] padded2(n)[i]),
        read_decimal(padded2(n)) == n,
        n < 10 ==> padded2(n)[0] == '0',
        n >= 10 ==> padded2(n) == decimal(n),
{
    decimal_writes_the_number(n);
    if n < 10 {
        digit_chars_are_digits(n);
        let p = padded2(n);
        assert(p.drop_last() =~= seq!['0']);
        assert(seq!['0'].drop_last() =~= Seq::<char>::empty());
        assert(read_decimal(Seq::<char>::empty()) == 0);
        assert(read_decimal(seq!['0']) == read_decimal(seq!['0'].drop_last()) * 10 + (
        seq!['0'].last() as int - '0' as int));
        assert(read_decimal(seq!['0']) == 0);
        assert(p.last() == digit_char(n));
        assert(read_decimal(p) == read_decimal(p.drop_last()) * 10 + (p.last() as int - '0' as int));
    } else {
        assert(decimal(n).len() >= 2) by {
            assert(decimal(n) == decimal(n / 10) + seq![digit_char(n % 10)]);
            decimal_writes_the_number(n / 10);
        }
    }
}

/// `signed_decimal(n)` writes a negative number as a minus sign and the
/// digits of its magnitude, and any other number as its digits.
pub proof fn signed_decimal_writes_the_number(n: int)
    ensures
        n < 0 ==> signed_decimal(n)[0] == '-' && read_decimal(signed_decimal(n).drop_first()) == -n,
        n >= 0 ==> read_decimal(signed_decimal(n)) == n && is_digit(signed_decimal(n)[0]),
{
    if n < 0 {
        decimal_writes_the_number((-n) as nat);
        assert(signed_decimal(n).drop_first() =~= decimal((-n) as nat));
    } else {
        decimal_writes_the_number(n as nat);
    }
}

/// A text begins with a prefix exactly when its first characters are the
/// prefix's: text written as the prefix and more begins with it, and a
/// text shorter than the prefix, or differing from it at some position
/// within the prefix, does not.
pub proof fn prefixes_are_leading_characters(s: Seq<char>, prefix: Seq<char>)
    ensures
        has_prefix(prefix + s, prefix),
        has_prefix(s, prefix) <==> (prefix.len() <= s.len() && forall|i: int|
            0 <= i < prefix.len() ==> s[i] == prefix[i]),
{
    assert((prefix + s).subrange(0, prefix.len() as int) =~= prefix);
    if prefix.len() <= s.len() && forall|i: int| 0 <= i < prefix.len() ==> s[i] == prefix[i] {
        assert(s.subrange(0, prefix.len() as int) =~= prefix);
    }
    if has_prefix(s, prefix) {
        assert forall|i: int| 0 <= i < prefix.len() implies s[i] == prefix[i] by {
            assert(s.subrange(0, prefix.len() as int)[i] == s[i]);
        }
    }
}

} // verus!
