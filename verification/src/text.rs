//! Comparing string slices character by character, measuring text in UTF-8 bytes, and writing
//! numbers in decimal.
use crate::storage::{label_chars, label_new, label_push, name_contents, name_new, name_push};
use vstd::prelude::*;
use vstd::string::{StrSliceExecFns, StringSliceAdditionalSpecFns};

verus! {

/// Whether `a` and `b` hold the same characters.
pub fn str_eq(a: &str, b: &str) -> (r: bool)
    ensures
        r == (a@ == b@),
{
    let n = a.unicode_len();
    let m = b.unicode_len();
    if n != m {
        return false;
    }
    let mut i: usize = 0;
    while i < n
        invariant
            n == a@.len(),
            m == b@.len(),
            n == m,
            0 <= i <= n,
            forall|j: int| 0 <= j < i ==> a@[j] == b@[j],
        decreases n - i,
    {
        if a.get_char(i) != b.get_char(i) {
            return false;
        }
        i = i + 1;
    }
    assert(a@ =~= b@);
    true
}


/// The byte length of an ASCII string is its number of characters.
pub proof fn lemma_ascii_len(s: &str)
    requires
        vstd::string::is_ascii(s),
        s@.len() <= 64,
    ensures
        s.len() == s@.len(),
{
    vstd::string::is_ascii_spec_bytes(s);
    assert(s.spec_bytes().len() == s@.len());
}

/// The decimal digits of `n`, most significant first.
pub open spec fn decimal_digits(n: nat) -> Seq<char>
    decreases n,
{
    if n < 10 {
        seq![((n + 48) as u8) as char]
    } else {
        decimal_digits(n / 10).push((((n % 10) + 48) as u8) as char)
    }
}

/// `v` written in decimal, with a minus sign when negative.
pub open spec fn decimal(v: int) -> Seq<char> {
    if v < 0 {
        seq!['-'] + decimal_digits((-v) as nat)
    } else {
        decimal_digits(v as nat)
    }
}

/// The number of bytes that `c` takes in UTF-8.
pub open spec fn utf8_width(c: char) -> nat {
    if (c as u32) < 0x80 {
        1
    } else if (c as u32) < 0x800 {
        2
    } else if (c as u32) < 0x10000 {
        3
    } else {
        4
    }
}

/// The number of bytes that the characters `s` take in UTF-8.
pub open spec fn utf8_len(s: Seq<char>) -> nat
    decreases s.len(),
{
    if s.len() == 0 {
        0
    } else {
        utf8_len(s.drop_last()) + utf8_width(s.last())
    }
}

/// Appending a character adds its UTF-8 width to the byte length.
pub proof fn lemma_utf8_len_push(s: Seq<char>, c: char)
    ensures
        utf8_len(s.push(c)) == utf8_len(s) + utf8_width(c),
{
    assert(s.push(c).drop_last() =~= s);
}

/// The character of the decimal digit `d`.
fn digit_char(d: u8) -> (r: char)
    requires
        d < 10,
    ensures
        r == ((d + 48) as u8) as char,
        '0' <= r <= '9',
{
    (d + 48) as char
}

/// The decimal digits of `n`, most significant first.
fn digits_of(n: u8) -> (r: Vec<char>)
    ensures
        r@ == decimal_digits(n as nat),
        1 <= r@.len() <= 3,
        vstd::utf8::is_ascii_chars(r@),
{
    let mut r: Vec<char> = Vec::new();
    if n >= 100 {
        r.push(digit_char(n / 100));
    }
    if n >= 10 {
        r.push(digit_char(n / 10 % 10));
    }
    r.push(digit_char(n % 10));
    proof {
        reveal_with_fuel(decimal_digits, 3);
        let m = n as nat;
        if n >= 100 {
            assert(decimal_digits(m / 100) == seq![(((m / 100) + 48) as u8) as char]);
            assert(decimal_digits(m / 10) == decimal_digits(m / 10 / 10).push(((((m / 10) % 10) + 48) as u8) as char));
            assert(m / 10 / 10 == m / 100);
        }
        assert(r@ =~= decimal_digits(m));
    }
    r
}

/// A `u8` in decimal, as a short text of at most three characters.
pub fn decimal_name(v: u8) -> (r: heapless::String<6>)
    ensures
        name_contents(r) == decimal(v as int),
{
    let digits = digits_of(v);
    let mut s = name_new();
    let mut i: usize = 0;
    while i < digits.len()
        invariant
            digits@ == decimal_digits(v as nat),
            digits@.len() <= 3,
            vstd::utf8::is_ascii_chars(digits@),
            0 <= i <= digits@.len(),
            name_contents(s) == digits@.take(i as int),
        decreases digits@.len() - i,
    {
        name_push(&mut s, digits[i]);
        assert(digits@.take(i as int + 1) =~= digits@.take(i as int).push(digits@[i as int]));
        i = i + 1;
    }
    assert(digits@.take(i as int) =~= digits@);
    s
}

/// An `i8` in decimal, with a minus sign when negative: at most four characters.
pub fn decimal_label(v: i8) -> (r: heapless::String<10>)
    ensures
        label_chars(r) == decimal(v as int),
{
    let mut s = label_new();
    let magnitude: u8 = if v < 0 {
        label_push(&mut s, '-');
        (0i16 - v as i16) as u8
    } else {
        v as u8
    };
    let ghost sign = label_chars(s);
    let digits = digits_of(magnitude);
    let mut i: usize = 0;
    while i < digits.len()
        invariant
            digits@ == decimal_digits(magnitude as nat),
            digits@.len() <= 3,
            vstd::utf8::is_ascii_chars(digits@),
            sign.len() <= 1,
            vstd::utf8::is_ascii_chars(sign),
            0 <= i <= digits@.len(),
            label_chars(s) == sign + digits@.take(i as int),
        decreases digits@.len() - i,
    {
        label_push(&mut s, digits[i]);
        assert(sign + digits@.take(i as int + 1) =~= (sign + digits@.take(i as int)).push(digits@[i as int]));
        i = i + 1;
    }
    assert(digits@.take(i as int) =~= digits@);
    assert(label_chars(s) == decimal(v as int)) by {
        if v < 0 {
            assert(sign =~= seq!['-']);
        } else {
            assert(sign =~= Seq::<char>::empty());
            assert(sign + digits@ =~= digits@);
        }
    }
    s
}

} // verus!
