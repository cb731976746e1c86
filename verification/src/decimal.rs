//! Unsigned 256-bit integers in two 128-bit limbs, and their decimal text.

use vstd::prelude::*;
use crate::text::{is_plain, is_plain_char};

verus! {

/// An unsigned 256-bit integer, held as two unsigned 128-bit limbs.
#[derive(Clone, Copy, Debug, PartialEq, Eq, Structural)]
pub struct U256 {
    pub low: u128,
    pub high: u128,
}

/// `2^128`, the weight of the high limb.
pub open spec fn limb_base() -> nat {
    0x1_0000_0000_0000_0000_0000_0000_0000_0000nat
}

/// The number that two limbs denote: `high * 2^128 + low`.
pub open spec fn limbs_value(high: u128, low: u128) -> nat {
    high as nat * limb_base() + low as nat
}

impl U256 {
    /// The number that the two limbs denote: `high * 2^128 + low`.
    pub open spec fn value(self) -> nat {
        limbs_value(self.high, self.low)
    }
}

/// The ten decimal digits.
pub open spec fn decimal_digits() -> Seq<char> {
    seq!['0', '1', '2', '3', '4', '5', '6', '7', '8', '9']
}

/// The base-10 text of a number: no sign and no leading zero; zero is `0`.
pub open spec fn decimal_text(n: nat) -> Seq<char>
    decreases n,
{
    if n < 10 {
        seq![decimal_digits()[n as int]]
    } else {
        decimal_text(n / 10).push(decimal_digits()[(n % 10) as int])
    }
}

/// The digit for a value below ten.
fn decimal_digit(n: u128) -> (c: char)
    requires
        n < 10,
    ensures
        c == decimal_digits()[n as int],
{
    match n {
        0 => '0',
        1 => '1',
        2 => '2',
        3 => '3',
        4 => '4',
        5 => '5',
        6 => '6',
        7 => '7',
        8 => '8',
        _ => '9',
    }
}

/// Divides a 256-bit number by ten: the quotient in two limbs, and the remainder.
fn div_rem_ten(high: u128, low: u128) -> (out: (u128, u128, u128))
    ensures
        limbs_value(out.0, out.1) == limbs_value(high, low) / 10,
        out.2 == limbs_value(high, low) % 10,
{
    let half: u128 = 0x1_0000_0000_0000_0000;
    let q_high: u128 = high / 10;
    let r_high: u128 = high % 10;
    let upper: u128 = low / half;
    let lower: u128 = low % half;
    let mid: u128 = r_high * half + upper;
    let q_mid: u128 = mid / 10;
    let r_mid: u128 = mid % 10;
    let last: u128 = r_mid * half + lower;
    let q_last: u128 = last / 10;
    let r_last: u128 = last % 10;
    assert(q_mid < half);
    assert(q_last < half);
    let q_low: u128 = q_mid * half + q_last;
    proof {
        let n = limbs_value(high, low);
        let q = limbs_value(q_high, q_low);
        assert(n == 10 * q + r_last);
        assert(n / 10 == q && n % 10 == r_last) by {
            vstd::arithmetic::div_mod::lemma_fundamental_div_mod_converse(
                n as int,
                10,
                q as int,
                r_last as int,
            );
        }
    }
    (q_high, q_low, r_last)
}

/// The decimal text of the number `high * 2^128 + low`.
pub fn decimal_string(high: u128, low: u128) -> (text: String)
    ensures
        text@ == decimal_text(limbs_value(high, low)),
{
    let ghost whole = limbs_value(high, low);
    let ghost mut tail: Seq<char> = Seq::empty();
    let mut rev: Vec<char> = Vec::new();
    let mut hi: u128 = high;
    let mut lo: u128 = low;
    while hi != 0 || lo >= 10
        invariant
            rev.len() == tail.len(),
            forall|j: int| 0 <= j < tail.len() ==> tail[j] == rev@[tail.len() - 1 - j],
            decimal_text(whole) == decimal_text(limbs_value(hi, lo)) + tail,
        decreases limbs_value(hi, lo),
    {
        let ghost before = limbs_value(hi, lo);
        let (q_hi, q_lo, r) = div_rem_ten(hi, lo);
        let c = decimal_digit(r);
        assert(before >= 10);
        rev.push(c);
        proof {
            let shorter = limbs_value(q_hi, q_lo);
            assert(decimal_text(before) == decimal_text(shorter).push(c));
            let longer = seq![c] + tail;
            assert(decimal_text(shorter).push(c) + tail =~= decimal_text(shorter) + longer);
            tail = longer;
        }
        hi = q_hi;
        lo = q_lo;
    }
    let c = decimal_digit(lo);
    rev.push(c);
    proof {
        assert(limbs_value(hi, lo) == lo);
        tail = seq![c] + tail;
        assert(decimal_text(whole) =~= tail);
    }
    let mut text = String::new();
    let mut i: usize = rev.len();
    while i > 0
        invariant
            i <= rev.len(),
            rev.len() == tail.len(),
            forall|j: int| 0 <= j < tail.len() ==> tail[j] == rev@[tail.len() - 1 - j],
            text@ == tail.take(rev.len() - i),
        decreases i,
    {
        i -= 1;
        text.push(rev[i]);
        assert(text@ =~= tail.take(rev.len() - i));
    }
    assert(tail.take(tail.len() as int) =~= tail);
    text
}

/// Renders an unsigned 256-bit integer in base 10: the digits of
/// `high * 2^128 + low`, without sign or leading zeros. With a zero high limb
/// this is the decimal text of the low limb.
pub fn render_decimal(value: &U256) -> (text: String)
    ensures
        text@ == decimal_text(value.value()),
        value.high == 0 ==> text@ == decimal_text(value.low as nat),
{
    decimal_string(value.high, value.low)
}

/// Decimal text holds digits only, at least one, and starts with `0` only
/// when the number is zero.
pub proof fn lemma_decimal_text_digits(n: nat)
    ensures
        decimal_text(n).len() >= 1,
        forall|i: int|
            0 <= i < decimal_text(n).len() ==> '0' <= #[trigger] decimal_text(n)[i] <= '9',
        is_plain(decimal_text(n)),
        decimal_text(n)[0] == '0' <==> n == 0,
    decreases n,
{
    if n >= 10 {
        lemma_decimal_text_digits(n / 10);
        let d = decimal_digits()[(n % 10) as int];
        assert('0' <= d <= '9');
        assert(decimal_text(n) == decimal_text(n / 10).push(d));
    } else {
        let d = decimal_digits()[n as int];
        assert('0' <= d <= '9');
    }
    assert forall|i: int| 0 <= i < decimal_text(n).len() implies is_plain_char(
        #[trigger] decimal_text(n)[i],
    ) by {
        assert('0' <= decimal_text(n)[i] <= '9');
    }
}

/// With a zero high limb the decimal text is that of the low limb; with any
/// other it is that of `high * 2^128 + low`, which no 128 bits hold.
pub proof fn law_decimal_of_limbs(value: U256)
    ensures
        value.high == 0 ==> decimal_text(value.value()) == decimal_text(value.low as nat),
        value.high > 0 ==> value.value() == value.high as nat * limb_base() + value.low as nat
            && value.value() > u128::MAX,
{
    if value.high > 0 {
        assert(value.high as nat * limb_base() >= limb_base()) by (nonlinear_arith)
            requires
                value.high >= 1,
        ;
    }
}

/// Different numbers have different decimal texts.
pub proof fn lemma_decimal_text_injective(n: nat, m: nat)
    requires
        decimal_text(n) == decimal_text(m),
    ensures
        n == m,
    decreases n,
{
    lemma_decimal_text_digits(n / 10);
    lemma_decimal_text_digits(m / 10);
    let digits = decimal_digits();
    assert forall|x: int, y: int| 0 <= x < 10 && 0 <= y < 10 && digits[x] == digits[y] implies x
        == y by {}
    if n < 10 && m < 10 {
        assert(decimal_text(n)[0] == digits[n as int]);
        assert(decimal_text(m)[0] == digits[m as int]);
    } else if n >= 10 && m >= 10 {
        let a = decimal_text(n / 10);
        let b = decimal_text(m / 10);
        let x = digits[(n % 10) as int];
        let y = digits[(m % 10) as int];
        assert(a.push(x).last() == b.push(y).last());
        assert(a =~= a.push(x).drop_last());
        assert(b =~= b.push(y).drop_last());
        lemma_decimal_text_injective(n / 10, m / 10);
    } else if n < 10 {
        assert(decimal_text(n).len() == 1);
        assert(decimal_text(m) == decimal_text(m / 10).push(digits[(m % 10) as int]));
    } else {
        assert(decimal_text(m).len() == 1);
        assert(decimal_text(n) == decimal_text(n / 10).push(digits[(n % 10) as int]));
    }
}

} // verus!
