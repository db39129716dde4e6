//! Decimal and hexadecimal rendering of integers.

use vstd::prelude::*;

use crate::text::string_of;

verus! {

/// The digit for `d`: a decimal digit below ten, a lower case letter from there.
pub open spec fn digit(d: nat) -> char {
    if d < 10 {
        (('0' as u32) + d) as char
    } else {
        (('a' as u32) + (d - 10)) as char
    }
}

/// The digits of `n` in base `base`, without leading zeros.
pub open spec fn digits(n: nat, base: nat) -> Seq<char>
    decreases n,
{
    if base < 2 || n < base {
        seq![digit(n)]
    } else {
        proof {
            assert(n / base < n) by (nonlinear_arith)
                requires
                    n >= base,
                    base >= 2,
            ;
        }
        digits(n / base, base).push(digit(n % base))
    }
}

/// The decimal digits of `n`.
pub open spec fn decimal(n: nat) -> Seq<char> {
    digits(n, 10)
}

/// The decimal rendering of `i`, with a sign when it is negative.
pub open spec fn signed_decimal(i: int) -> Seq<char> {
    if i < 0 {
        seq!['-'] + decimal((-i) as nat)
    } else {
        decimal(i as nat)
    }
}

/// `s` with as many zeros before it as bring it to `width` characters.
pub open spec fn zero_padded(s: Seq<char>, width: nat) -> Seq<char> {
    if s.len() < width {
        Seq::new((width - s.len()) as nat, |i: int| '0') + s
    } else {
        s
    }
}

// ---------------------------------------------------------------------------
// Reading digits back
// ---------------------------------------------------------------------------

/// The value of the digit `c`.
pub open spec fn digit_value(c: char) -> nat {
    if c >= 'a' {
        (c as nat - 'a' as nat + 10) as nat
    } else {
        (c as nat - '0' as nat) as nat
    }
}

/// The number that the digits of `s` denote in base `base`.
pub open spec fn value_of(s: Seq<char>, base: nat) -> nat
    decreases s.len(),
{
    if s.len() == 0 {
        0
    } else {
        value_of(s.drop_last(), base) * base + digit_value(s.last())
    }
}

proof fn lemma_zeros_value(s: Seq<char>, n: nat, base: nat)
    ensures
        value_of(Seq::new(n, |i: int| '0') + s, base) == value_of(s, base),
    decreases n + s.len(),
{
    let zeros = Seq::new(n, |i: int| '0');
    let all = zeros + s;
    if s.len() > 0 {
        assert(all.drop_last() =~= zeros + s.drop_last());
        lemma_zeros_value(s.drop_last(), n, base);
    } else if n > 0 {
        let fewer = Seq::new((n - 1) as nat, |i: int| '0');
        assert(all.drop_last() =~= fewer + s);
        lemma_zeros_value(s, (n - 1) as nat, base);
        assert(value_of(all.drop_last(), base) * base == 0) by (nonlinear_arith)
            requires
                value_of(all.drop_last(), base) == 0,
        ;
    } else {
        assert(all =~= s);
    }
}

/// Reading the digits of a number, padded or not, gives the number back.
pub proof fn lemma_digits_value(n: nat, base: nat, width: nat)
    requires
        2 <= base <= 16,
    ensures
        value_of(zero_padded(digits(n, base), width), base) == n,
    decreases n,
{
    let s = digits(n, base);
    if n < base {
        assert(s.drop_last() =~= Seq::<char>::empty());
        assert(value_of(s.drop_last(), base) * base == 0) by (nonlinear_arith)
            requires
                value_of(s.drop_last(), base) == 0,
        ;
        assert(value_of(s, base) == n);
    } else {
        assert(n / base < n && n == n / base * base + n % base && n % base < base) by (
            nonlinear_arith)
            requires
                n >= base,
                base >= 2,
        ;
        lemma_digits_value(n / base, base, 0);
        assert(s.drop_last() =~= digits(n / base, base));
    }
    if s.len() < width {
        lemma_zeros_value(s, (width - s.len()) as nat, base);
    }
}

/// How many decimal digits a number has.
pub proof fn lemma_decimal_len(n: nat)
    ensures
        decimal(n).len() >= 1,
        n < 10 ==> decimal(n).len() == 1,
        n < 100 ==> decimal(n).len() <= 2,
        n < 10000 ==> decimal(n).len() <= 4,
{
    reveal_with_fuel(digits, 5);
}

/// Whether `c` is a decimal digit.
pub open spec fn is_decimal_digit(c: char) -> bool {
    '0' <= c <= '9'
}

/// A decimal rendering consists of decimal digits, padded or not.
pub proof fn lemma_decimal_digits(n: nat, width: nat)
    ensures
        forall|i: int|
            0 <= i < zero_padded(decimal(n), width).len() ==> is_decimal_digit(
                #[trigger] zero_padded(decimal(n), width)[i],
            ),
    decreases n,
{
    let s = decimal(n);
    if n >= 10 {
        lemma_decimal_digits(n / 10, 0);
        assert forall|i: int| 0 <= i < s.len() implies is_decimal_digit(#[trigger] s[i]) by {
            if i < s.len() - 1 {
                assert(s[i] == zero_padded(decimal(n / 10), 0)[i]);
            }
        }
    } else {
        assert forall|i: int| 0 <= i < s.len() implies is_decimal_digit(#[trigger] s[i]) by {}
    }
    let padded = zero_padded(s, width);
    assert forall|i: int| 0 <= i < padded.len() implies is_decimal_digit(#[trigger] padded[i]) by {
        if s.len() < width && i >= width - s.len() {
            assert(padded[i] == s[i - (width - s.len())]);
        }
    }
}

// ---------------------------------------------------------------------------
// Rendering
// ---------------------------------------------------------------------------

fn digit_char(d: u64) -> (c: char)
    requires
        d < 16,
    ensures
        c == digit(d as nat),
{
    if d < 10 {
        (48u8 + d as u8) as char
    } else {
        (97u8 + (d as u8 - 10)) as char
    }
}

fn render_reversed(n: u64, base: u64) -> (v: Vec<char>)
    requires
        2 <= base <= 16,
    ensures
        v@.reverse() == digits(n as nat, base as nat),
{
    let mut v: Vec<char> = Vec::new();
    let mut m: u64 = n;
    while m >= base
        invariant
            2 <= base <= 16,
            digits(n as nat, base as nat) == digits(m as nat, base as nat) + v@.reverse(),
        decreases m,
    {
        let ghost before = v@;
        let d: u64 = m % base;
        let q: u64 = m / base;
        proof {
            assert(q < m) by (nonlinear_arith)
                requires
                    q == m / base,
                    m >= base,
                    base >= 2,
            ;
        }
        v.push(digit_char(d));
        proof {
            assert(v@.reverse() =~= seq![digit(d as nat)] + before.reverse());
            assert(digits(m as nat, base as nat) == digits(q as nat, base as nat).push(
                digit(d as nat),
            ));
            assert(digits(m as nat, base as nat) + before.reverse() =~= digits(
                q as nat,
                base as nat,
            ) + v@.reverse());
        }
        m = q;
    }
    let ghost before = v@;
    v.push(digit_char(m));
    assert(v@.reverse() =~= digits(m as nat, base as nat) + before.reverse());
    v
}

/// The digits of `n` in base `base`, with zeros before them up to `width` characters.
pub fn render(n: u64, base: u64, width: usize) -> (s: String)
    requires
        2 <= base <= 16,
    ensures
        s@ == zero_padded(digits(n as nat, base as nat), width as nat),
{
    let r = render_reversed(n, base);
    let mut out: Vec<char> = Vec::new();
    let len: usize = r.len();
    let mut k: usize = len;
    while k < width
        invariant
            len <= k,
            k <= width || k == len,
            out@ == Seq::new((k - len) as nat, |i: int| '0'),
        decreases width - k,
    {
        out.push('0');
        k = k + 1;
    }
    let ghost zeros = out@;
    let mut i: usize = len;
    while i > 0
        invariant
            i <= len == r@.len(),
            out@ == zeros + r@.reverse().take(len - i),
        decreases i,
    {
        i = i - 1;
        out.push(r[i]);
        assert(r@.reverse().take(len - i) =~= r@.reverse().take(len - i - 1).push(r@[i as int]));
    }
    assert(r@.reverse().take(len as int) =~= r@.reverse());
    assert(out@ =~= zero_padded(digits(n as nat, base as nat), width as nat));
    string_of(&out)
}

/// The decimal rendering of an unsigned number.
pub fn unsigned_to_string(n: u64) -> (s: String)
    ensures
        s@ == decimal(n as nat),
{
    render(n, 10, 0)
}

/// The decimal rendering of a signed number.
pub fn signed_to_string(i: i32) -> (s: String)
    ensures
        s@ == signed_decimal(i as int),
{
    if i < 0 {
        let magnitude: u64 = (-(i as i64)) as u64;
        let mut s = "-".to_owned();
        proof {
            reveal_strlit("-");
            assert(s@ =~= seq!['-']);
        }
        let d = unsigned_to_string(magnitude);
        s.append(d.as_str());
        s
    } else {
        unsigned_to_string(i as u64)
    }
}

// ---------------------------------------------------------------------------
// Laws
// ---------------------------------------------------------------------------

proof fn lemma_no_leading_zero(n: nat, base: nat)
    requires
        2 <= base <= 16,
    ensures
        digits(n, base).len() > 0,
        n > 0 ==> digits(n, base)[0] != '0',
        n == 0 ==> digits(n, base) == seq!['0'],
    decreases n,
{
    if n >= base {
        assert(0 < n / base < n) by (nonlinear_arith)
            requires
                n >= base,
                base >= 2,
        ;
        lemma_no_leading_zero(n / base, base);
        assert(digits(n, base)[0] == digits(n / base, base)[0]);
    }
}

/// A number is written in decimal digits without zeros before them, and reads back as itself.
pub proof fn law_decimal_reads_back(n: nat)
    ensures
        decimal(n).len() > 0,
        forall|i: int| 0 <= i < decimal(n).len() ==> '0' <= #[trigger] decimal(n)[i] <= '9',
        n > 0 ==> decimal(n)[0] != '0',
        n == 0 ==> decimal(n) == seq!['0'],
        value_of(decimal(n), 10) == n,
{
    lemma_decimal_digits(n, 0);
    lemma_digits_value(n, 10, 0);
    lemma_no_leading_zero(n, 10);
    assert(zero_padded(decimal(n), 0) == decimal(n));
    assert forall|i: int| 0 <= i < decimal(n).len() implies '0' <= #[trigger] decimal(n)[i]
        <= '9' by {
        assert(is_decimal_digit(zero_padded(decimal(n), 0)[i]));
    }
}

/// A sign stands before exactly the negative numbers, and what follows it is the magnitude.
pub proof fn law_sign_stands_before_negative_numbers(i: int)
    ensures
        i >= 0 ==> signed_decimal(i) == decimal(i as nat),
        i < 0 ==> signed_decimal(i)[0] == '-' && signed_decimal(i).skip(1) == decimal((-i) as nat),
{
    if i < 0 {
        assert(signed_decimal(i).skip(1) =~= decimal((-i) as nat));
    }
}

/// Different numbers are written differently.
pub proof fn law_numbers_are_told_apart(i: int, j: int)
    requires
        signed_decimal(i) == signed_decimal(j),
    ensures
        i == j,
{
    let (a, b) = (if i < 0 {
        (-i) as nat
    } else {
        i as nat
    }, if j < 0 {
        (-j) as nat
    } else {
        j as nat
    });
    law_sign_stands_before_negative_numbers(i);
    law_sign_stands_before_negative_numbers(j);
    law_decimal_reads_back(a);
    law_decimal_reads_back(b);
    assert(decimal(a)[0] != '-');
    assert(decimal(b)[0] != '-');
}

/// Padding puts zeros before a number, up to the width and no further.
pub proof fn law_padding_puts_zeros_before(s: Seq<char>, width: nat)
    ensures
        zero_padded(s, width).len() == (if s.len() < width {
            width
        } else {
            s.len()
        }),
        zero_padded(s, width).skip(zero_padded(s, width).len() - s.len()) == s,
        forall|i: int|
            0 <= i < zero_padded(s, width).len() - s.len() ==> #[trigger] zero_padded(s, width)[i]
                == '0',
{
    let p = zero_padded(s, width);
    assert(p.skip(p.len() - s.len()) =~= s);
}

} // verus!
