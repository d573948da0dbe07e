//! Decimal strings: the numeric command-line fields are read and printed
//! through these functions, so that what a flag value means is a single
//! spec-level statement.

use vstd::prelude::*;

verus! {

/// The numeric value of one decimal digit character, if it is one.
pub open spec fn spec_char_digit(c: char) -> Option<u64> {
    if c == '0' {
        Some(0u64)
    } else if c == '1' {
        Some(1u64)
    } else if c == '2' {
        Some(2u64)
    } else if c == '3' {
        Some(3u64)
    } else if c == '4' {
        Some(4u64)
    } else if c == '5' {
        Some(5u64)
    } else if c == '6' {
        Some(6u64)
    } else if c == '7' {
        Some(7u64)
    } else if c == '8' {
        Some(8u64)
    } else if c == '9' {
        Some(9u64)
    } else {
        None
    }
}

pub open spec fn spec_is_digit(c: char) -> bool {
    spec_char_digit(c) is Some
}

pub open spec fn spec_digit_val(c: char) -> nat {
    match spec_char_digit(c) {
        Some(d) => d as nat,
        None => 0,
    }
}

pub open spec fn spec_all_digits(s: Seq<char>) -> bool {
    forall|i: int| 0 <= i < s.len() ==> spec_is_digit(#[trigger] s[i])
}

/// Value of a digit string, most significant digit first.
pub open spec fn spec_digits_val(s: Seq<char>) -> nat
    decreases s.len(),
{
    if s.len() == 0 {
        0
    } else {
        spec_digits_val(s.drop_last()) * 10 + spec_digit_val(s.last())
    }
}

/// What a numeric command-line field means: a non-empty string of decimal
/// digits whose value fits the unsigned sixty-four-bit range.
pub open spec fn spec_parse_u64(s: Seq<char>) -> Option<u64> {
    if s.len() != 0 && spec_all_digits(s) && spec_digits_val(s) <= u64::MAX {
        Some(spec_digits_val(s) as u64)
    } else {
        None
    }
}

/// The concurrency flag is narrower: its value must also fit the unsigned
/// thirty-two-bit range.
pub open spec fn spec_parse_u32(s: Seq<char>) -> Option<u32> {
    match spec_parse_u64(s) {
        Some(v) => if v <= u32::MAX {
            Some(v as u32)
        } else {
            None
        },
        None => None,
    }
}

fn digit_of(c: char) -> (r: Option<u64>)
    ensures
        r == spec_char_digit(c),
{
    if c == '0' {
        Some(0u64)
    } else if c == '1' {
        Some(1u64)
    } else if c == '2' {
        Some(2u64)
    } else if c == '3' {
        Some(3u64)
    } else if c == '4' {
        Some(4u64)
    } else if c == '5' {
        Some(5u64)
    } else if c == '6' {
        Some(6u64)
    } else if c == '7' {
        Some(7u64)
    } else if c == '8' {
        Some(8u64)
    } else if c == '9' {
        Some(9u64)
    } else {
        None
    }
}

/// A prefix of a digit string never exceeds the whole string's value.
proof fn lemma_prefix_val_le(s: Seq<char>, j: int)
    requires
        0 <= j <= s.len(),
    ensures
        spec_digits_val(s.subrange(0, j)) <= spec_digits_val(s),
    decreases s.len() - j,
{
    if j == s.len() {
        assert(s.subrange(0, j) =~= s);
    } else {
        let a = s.subrange(0, j);
        let b = s.subrange(0, j + 1);
        assert(b.drop_last() =~= a);
        assert(spec_digits_val(a) * 10 >= spec_digits_val(a)) by (nonlinear_arith);
        lemma_prefix_val_le(s, j + 1);
    }
}

/// Reads a decimal number from a string: the result is `Some` exactly on a
/// non-empty all-digit string whose value fits.
pub fn parse_u64(s: &str) -> (r: Option<u64>)
    ensures
        r == spec_parse_u64(s@),
{
    let n = s.unicode_len();
    if n == 0 {
        return None;
    }
    let mut i: usize = 0;
    let mut acc: u64 = 0;
    while i < n
        invariant
            0 <= i <= n,
            n == s@.len(),
            spec_all_digits(s@.subrange(0, i as int)),
            acc == spec_digits_val(s@.subrange(0, i as int)),
        decreases n - i,
    {
        let c = s.get_char(i);
        proof {
            assert(s@.subrange(0, i + 1).drop_last() =~= s@.subrange(0, i as int));
            assert(s@.subrange(0, i + 1).last() == s@[i as int]);
        }
        match digit_of(c) {
            None => {
                assert(!spec_is_digit(s@[i as int]));
                return None;
            },
            Some(d) => {
                let step = match acc.checked_mul(10) {
                    None => None,
                    Some(m) => m.checked_add(d),
                };
                match step {
                    None => {
                        proof {
                            assert(spec_digits_val(s@.subrange(0, i + 1)) > u64::MAX);
                            if spec_all_digits(s@) {
                                lemma_prefix_val_le(s@, i + 1);
                            }
                        }
                        return None;
                    },
                    Some(v) => {
                        acc = v;
                    },
                }
            },
        }
        i = i + 1;
    }
    proof {
        assert(s@.subrange(0, n as int) =~= s@);
    }
    Some(acc)
}

/// Reads the concurrency flag's number: as `parse_u64`, further bounded to
/// the unsigned thirty-two-bit range.
pub fn parse_u32(s: &str) -> (r: Option<u32>)
    ensures
        r == spec_parse_u32(s@),
{
    match parse_u64(s) {
        None => None,
        Some(v) => if v <= u32::MAX as u64 {
            Some(v as u32)
        } else {
            None
        },
    }
}

/// The digit character of one value below ten.
pub open spec fn spec_digit_char(d: nat) -> char
    recommends
        d < 10,
{
    if d == 0 {
        '0'
    } else if d == 1 {
        '1'
    } else if d == 2 {
        '2'
    } else if d == 3 {
        '3'
    } else if d == 4 {
        '4'
    } else if d == 5 {
        '5'
    } else if d == 6 {
        '6'
    } else if d == 7 {
        '7'
    } else if d == 8 {
        '8'
    } else {
        '9'
    }
}

/// The decimal rendering of a number, without sign or leading zeros.
pub open spec fn spec_decimal(n: u64) -> Seq<char>
    decreases n,
{
    if n < 10 {
        seq![spec_digit_char(n as nat)]
    } else {
        spec_decimal(n / 10).push(spec_digit_char((n % 10) as nat))
    }
}

fn append_digit(s: &mut String, d: u64)
    requires
        d < 10,
    ensures
        final(s)@ == old(s)@ + seq![spec_digit_char(d as nat)],
{
    proof {
        reveal_strlit("0");
        reveal_strlit("1");
        reveal_strlit("2");
        reveal_strlit("3");
        reveal_strlit("4");
        reveal_strlit("5");
        reveal_strlit("6");
        reveal_strlit("7");
        reveal_strlit("8");
        reveal_strlit("9");
    }
    if d == 0 {
        s.append("0");
    } else if d == 1 {
        s.append("1");
    } else if d == 2 {
        s.append("2");
    } else if d == 3 {
        s.append("3");
    } else if d == 4 {
        s.append("4");
    } else if d == 5 {
        s.append("5");
    } else if d == 6 {
        s.append("6");
    } else if d == 7 {
        s.append("7");
    } else if d == 8 {
        s.append("8");
    } else {
        s.append("9");
    }
    assert(s@ =~= old(s)@ + seq![spec_digit_char(d as nat)]);
}

fn push_decimal(s: &mut String, n: u64)
    ensures
        final(s)@ == old(s)@ + spec_decimal(n),
    decreases n,
{
    if n < 10 {
        append_digit(s, n);
        assert(s@ =~= old(s)@ + spec_decimal(n));
    } else {
        push_decimal(s, n / 10);
        append_digit(s, n % 10);
        assert(s@ =~= old(s)@ + spec_decimal(n));
    }
}

/// A digit character reads back to the digit it renders.
proof fn lemma_digit_char_val(d: nat)
    requires
        d < 10,
    ensures
        spec_char_digit(spec_digit_char(d)) == Some(d as u64),
{
    if d == 0 {
        assert(spec_char_digit('0') == Some(0u64));
    } else if d == 1 {
        assert(spec_char_digit('1') == Some(1u64));
    } else if d == 2 {
        assert(spec_char_digit('2') == Some(2u64));
    } else if d == 3 {
        assert(spec_char_digit('3') == Some(3u64));
    } else if d == 4 {
        assert(spec_char_digit('4') == Some(4u64));
    } else if d == 5 {
        assert(spec_char_digit('5') == Some(5u64));
    } else if d == 6 {
        assert(spec_char_digit('6') == Some(6u64));
    } else if d == 7 {
        assert(spec_char_digit('7') == Some(7u64));
    } else if d == 8 {
        assert(spec_char_digit('8') == Some(8u64));
    } else {
        assert(spec_char_digit('9') == Some(9u64));
    }
}

/// Every digit of a decimal rendering is a digit, and the rendering reads
/// back to the number it was made from.
proof fn lemma_decimal_shape(n: u64)
    ensures
        spec_decimal(n).len() >= 1,
        spec_all_digits(spec_decimal(n)),
        spec_digits_val(spec_decimal(n)) == n,
    decreases n,
{
    let p = spec_decimal(n);
    if n < 10 {
        lemma_digit_char_val(n as nat);
        assert(p.drop_last() =~= Seq::<char>::empty());
        assert(p.last() == spec_digit_char(n as nat));
        assert(spec_digit_val(p.last()) == n);
        assert(spec_digits_val(p) == spec_digits_val(p.drop_last()) * 10 + spec_digit_val(
            p.last(),
        ));
        assert(spec_digits_val(p.drop_last()) == 0);
    } else {
        lemma_decimal_shape(n / 10);
        lemma_digit_char_val((n % 10) as nat);
        let q = spec_decimal(n / 10);
        assert(p.drop_last() =~= q);
        assert(p.last() == spec_digit_char((n % 10) as nat));
        assert(spec_digit_val(p.last()) == n % 10);
        assert(spec_digits_val(p) == spec_digits_val(q) * 10 + spec_digit_val(p.last()));
        assert(spec_digits_val(q) == n / 10);
        assert(n / 10 * 10 + n % 10 == n);
        assert forall|i: int| 0 <= i < p.len() implies spec_is_digit(#[trigger] p[i]) by {
            if i < p.len() - 1 {
                assert(p[i] == q[i]);
            } else {
                assert(p[i] == spec_digit_char((n % 10) as nat));
            }
        }
    }
}

/// Rendering a number and parsing the result gives the number back.
pub proof fn lemma_decimal_parses(n: u64)
    ensures
        spec_parse_u64(spec_decimal(n)) == Some(n),
{
    lemma_decimal_shape(n);
}

/// Renders a number in decimal; the contract also states that `parse_u64`
/// applied to the result gives the number back.
pub fn decimal(n: u64) -> (s: String)
    ensures
        s@ == spec_decimal(n),
        spec_parse_u64(s@) == Some(n),
{
    proof {
        lemma_decimal_parses(n);
    }
    let mut s = String::new();
    push_decimal(&mut s, n);
    assert(s@ =~= spec_decimal(n));
    s
}

} // verus!
