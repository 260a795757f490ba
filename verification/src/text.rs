//! Decimal rendering and space padding, as the report's fields use them.

use vstd::prelude::*;
use vstd::string::*;

verus! {

/// `String::push` appends the one character to the end of the string.
pub assume_specification[ String::push ](s: &mut String, c: char)
    ensures
        final(s)@ == old(s)@.push(c),
;

/// The character of a decimal digit.
pub open spec fn digit_char(d: int) -> char {
    if d == 0 {
        '0'
    } else if d == 1 {
        '1'
    } else if d == 2 {
        '2'
    } else if d == 3 {
        '3'
    } else if d == 4 {
        '4'
    } else if d == 5 {
        '5'
    } else if d == 6 {
        '6'
    } else if d == 7 {
        '7'
    } else if d == 8 {
        '8'
    } else {
        '9'
    }
}

/// The decimal numeral of `n`, without leading zeros.
pub open spec fn decimal(n: nat) -> Seq<char>
    decreases n,
{
    if n < 10 {
        seq![digit_char(n as int)]
    } else {
        decimal(n / 10).push(digit_char((n % 10) as int))
    }
}

/// The numeral of a signed number: a minus sign before the numeral of its
/// magnitude where it is negative.
pub open spec fn signed_decimal(i: int) -> Seq<char> {
    if i < 0 {
        seq!['-'] + decimal((-i) as nat)
    } else {
        decimal(i as nat)
    }
}

/// `k` spaces.
pub open spec fn spaces(k: nat) -> Seq<char> {
    Seq::new(k, |i: int| ' ')
}

/// `body` moved to the right edge of a column of `width` characters; a body
/// that is wider than the column stays as it is.
pub open spec fn right_aligned(body: Seq<char>, width: nat) -> Seq<char> {
    if body.len() >= width {
        body
    } else {
        spaces((width - body.len()) as nat) + body
    }
}

/// `body` at the left edge of a column of `width` characters; a body that is
/// wider than the column stays as it is.
pub open spec fn left_aligned(body: Seq<char>, width: nat) -> Seq<char> {
    if body.len() >= width {
        body
    } else {
        body + spaces((width - body.len()) as nat)
    }
}

/// A numeral has at least one digit, exactly one below ten, and at most
/// twenty for a 64-bit number.
pub proof fn lemma_decimal_len(n: nat)
    ensures
        decimal(n).len() >= 1,
        n <= u64::MAX ==> decimal(n).len() <= 20,
        n < 10 <==> decimal(n).len() == 1,
    decreases n,
{
    if n >= 10 {
        lemma_decimal_len(n / 10);
    }
    if n <= u64::MAX {
        assert(pow10(20) == 100000000000000000000nat) by {
            reveal_with_fuel(pow10, 21);
        }
        lemma_decimal_len_bound(n, 20);
    }
}

/// A number below the `k`-th power of ten has at most `k` digits.
pub proof fn lemma_decimal_len_bound(n: nat, k: nat)
    requires
        k >= 1,
        n < pow10(k),
    ensures
        decimal(n).len() <= k,
    decreases k,
{
    reveal_with_fuel(pow10, 2);
    if n >= 10 {
        if k == 1 {
            assert(pow10(1) == 10);
        } else {
            assert(n / 10 < pow10((k - 1) as nat)) by (nonlinear_arith)
                requires
                    n < 10 * pow10((k - 1) as nat),
            ;
            lemma_decimal_len_bound(n / 10, (k - 1) as nat);
        }
    }
}

/// Ten to the power `k`.
pub open spec fn pow10(k: nat) -> nat
    decreases k,
{
    if k == 0 {
        1
    } else {
        10 * pow10((k - 1) as nat)
    }
}

/// The character of the digit `d`.
pub fn digit_to_char(d: u8) -> (c: char)
    requires
        d < 10,
    ensures
        c == digit_char(d as int),
{
    match d {
        0 => '0',
        1 => '1',
        2 => '2',
        3 => '3',
        4 => '4',
        5 => '5',
        6 => '6',
        7 => '7',
        8 => '8',
        _ => '9',
    }
}

/// The number of digits in the numeral of `n`.
pub fn decimal_width(n: u64) -> (w: usize)
    ensures
        w == decimal(n as nat).len(),
        1 <= w <= 20,
    decreases n,
{
    proof {
        lemma_decimal_len(n as nat);
    }
    if n < 10 {
        1
    } else {
        let rest: usize = decimal_width(n / 10);
        rest + 1
    }
}

/// Appends the numeral of `n` to `out`.
pub fn push_decimal(out: &mut String, n: u64)
    ensures
        final(out)@ == old(out)@ + decimal(n as nat),
    decreases n,
{
    if n >= 10 {
        push_decimal(out, n / 10);
    }
    let d: u8 = (n % 10) as u8;
    out.push(digit_to_char(d));
    assert(final(out)@ =~= old(out)@ + decimal(n as nat));
}

/// Appends the numeral of the signed number `i` to `out`.
pub fn push_signed_decimal(out: &mut String, i: i32)
    ensures
        final(out)@ == old(out)@ + signed_decimal(i as int),
{
    if i < 0 {
        out.push('-');
        let magnitude: u64 = (-(i as i64)) as u64;
        push_decimal(out, magnitude);
        assert(final(out)@ =~= old(out)@ + signed_decimal(i as int));
    } else {
        push_decimal(out, i as u64);
    }
}

/// Appends `k` spaces to `out`.
pub fn push_spaces(out: &mut String, k: usize)
    ensures
        final(out)@ == old(out)@ + spaces(k as nat),
{
    let mut done: usize = 0;
    while done < k
        invariant
            done <= k,
            out@ == old(out)@ + spaces(done as nat),
        decreases k - done,
    {
        out.push(' ');
        done = done + 1;
        assert(out@ =~= old(out)@ + spaces(done as nat));
    }
}

/// Appends the numeral of `n`, right-aligned in `width` columns.
pub fn push_right_aligned(out: &mut String, n: u64, width: usize)
    ensures
        final(out)@ == old(out)@ + right_aligned(decimal(n as nat), width as nat),
{
    let digits: usize = decimal_width(n);
    if digits < width {
        push_spaces(out, width - digits);
    }
    push_decimal(out, n);
    assert(final(out)@ =~= old(out)@ + right_aligned(decimal(n as nat), width as nat));
}

/// Appends the numeral of `n`, left-aligned in `width` columns.
pub fn push_left_aligned(out: &mut String, n: u64, width: usize)
    ensures
        final(out)@ == old(out)@ + left_aligned(decimal(n as nat), width as nat),
{
    let digits: usize = decimal_width(n);
    push_decimal(out, n);
    if digits < width {
        push_spaces(out, width - digits);
    }
    assert(final(out)@ =~= old(out)@ + left_aligned(decimal(n as nat), width as nat));
}

} // verus!
