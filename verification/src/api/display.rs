//! The text that stands for a balance in the status line.

use vstd::prelude::*;
use vstd::string::*;
use super::BalanceData;
use super::UNITS_PER_DOLLAR;

verus! {

/// Shown for an account without a limit.
pub const UNLIMITED_MARK: &'static str = "∞";

/// Shown for an account that has used more than its quota.
pub const OVERUSED_MARK: &'static str = "超额";

/// Two to the power of 53: a double holds every whole number up to here, and
/// its mantissa lies below it.
pub const MANTISSA_END: u128 = 9_007_199_254_740_992;

/// `MANTISSA_END / 2 * UNITS_PER_DOLLAR`: a number of quota units, scaled by a
/// power of two, that lies at or above this and below twice this gives a
/// quotient within the range of a mantissa.
pub const MANTISSA_SCALE_END: u128 = 2_251_799_813_685_248_000_000;

/// The character for a single decimal digit.
pub open spec fn digit_char(d: nat) -> char {
    if d == 0 {
        '0'
    } else if d == 1 {
        '1'
    } else if d == 2 {
        '2'
    } else if d == 3 {
        '3'
    } else if d == 4 {
        '4'
    } else if d == 5 {
        '5'
    } else if d == 6 {
        '6'
    } else if d == 7 {
        '7'
    } else if d == 8 {
        '8'
    } else {
        '9'
    }
}

/// The decimal numeral of `n`, without leading zeros.
pub open spec fn decimal(n: nat) -> Seq<char>
    decreases n,
{
    if n < 10 {
        seq![digit_char(n)]
    } else {
        decimal(n / 10).push(digit_char(n % 10))
    }
}

/// The digit that a character stands for; 0 for any other character.
pub open spec fn digit_value(c: char) -> nat {
    if c == '1' {
        1
    } else if c == '2' {
        2
    } else if c == '3' {
        3
    } else if c == '4' {
        4
    } else if c == '5' {
        5
    } else if c == '6' {
        6
    } else if c == '7' {
        7
    } else if c == '8' {
        8
    } else if c == '9' {
        9
    } else {
        0
    }
}

/// The number that a decimal numeral stands for.
pub open spec fn numeral_value(digits: Seq<char>) -> nat
    decreases digits.len(),
{
    if digits.len() == 0 {
        0
    } else {
        10 * numeral_value(digits.drop_last()) + digit_value(digits.last())
    }
}

/// `decimal(n)` is a numeral of `n`: read back it gives `n`, it has at least
/// one digit, and it starts with a zero only where `n` is zero.
pub proof fn lemma_decimal_reads_back(n: nat)
    ensures
        numeral_value(decimal(n)) == n,
        decimal(n).len() >= 1,
        n > 0 ==> decimal(n)[0] != '0',
    decreases n,
{
    if n < 10 {
        assert(decimal(n).drop_last() =~= Seq::<char>::empty());
        assert(numeral_value(decimal(n).drop_last()) == 0);
    } else {
        lemma_decimal_reads_back(n / 10);
        assert(decimal(n).drop_last() =~= decimal(n / 10));
    }
}

/// `n / d` rounded to the nearest whole number; a quotient that lies exactly
/// between two goes to the even one.
pub open spec fn round_half_even(n: nat, d: nat) -> nat {
    let below = n / d;
    let rest = n % d;
    if 2 * rest > d || (2 * rest == d && below % 2 == 1) {
        below + 1
    } else {
        below
    }
}

/// The distance between neighbouring doubles around the whole number `n`: 1
/// below `MANTISSA_END`, and twice as much each time `n` doubles from there.
pub open spec fn double_spacing(n: nat) -> nat
    decreases n,
{
    if n < MANTISSA_END {
        1
    } else {
        2 * double_spacing(n / 2)
    }
}

/// The double nearest to the whole number `n`, which is itself a whole
/// number: `n` rounded to a multiple of the spacing of the doubles around it.
pub open spec fn nearest_double(n: nat) -> nat {
    round_half_even(n, double_spacing(n)) * double_spacing(n)
}

/// The power of two that brings the amount of `n` quota units into the range
/// of a double's mantissa: the least `p` with `n * p >= MANTISSA_SCALE_END`,
/// so that `n * p / UNITS_PER_DOLLAR` lies between `MANTISSA_END / 2` and
/// `MANTISSA_END`. It is 1 for `n == 0`.
pub open spec fn mantissa_scale(n: nat) -> nat
    decreases 2 * MANTISSA_SCALE_END - n,
{
    if n == 0 || n >= MANTISSA_SCALE_END {
        1
    } else {
        2 * mantissa_scale(2 * n)
    }
}

/// The mantissa of the double nearest to `n / UNITS_PER_DOLLAR`: that double
/// is `amount_mantissa(n) / mantissa_scale(n)`.
pub open spec fn amount_mantissa(n: nat) -> nat {
    round_half_even(n * mantissa_scale(n), UNITS_PER_DOLLAR as nat)
}

/// The hundredths that are shown for `units` quota units: those of the amount
/// as a double. The units are taken to the nearest double and divided by
/// `UNITS_PER_DOLLAR`, again to the nearest double, and that double is
/// rounded to two decimal places, a half to the even side. An amount of so
/// many and a half hundredths whose double is not exact therefore goes to the
/// side on which its double lies.
pub open spec fn shown_cents(units: nat) -> nat {
    let n = nearest_double(units);
    round_half_even(100 * amount_mantissa(n), mantissa_scale(n))
}

/// An amount of `cents` hundredths as currency text with two decimal places.
pub open spec fn currency_text(cents: nat) -> Seq<char> {
    seq!['$'] + decimal(cents / 100) + seq!['.', digit_char(cents % 100 / 10), digit_char(cents % 10)]
}

/// `round_half_even` gives the whole number nearest to the quotient: it is
/// off by at most a half, and by exactly a half only towards an even number.
pub proof fn lemma_round_half_even_is_nearest(n: nat, d: nat)
    requires
        d > 0,
    ensures
        2 * (round_half_even(n, d) * d - n) <= d,
        2 * (n - round_half_even(n, d) * d) <= d,
        2 * (round_half_even(n, d) * d - n) == d || 2 * (n - round_half_even(n, d) * d) == d
            ==> round_half_even(n, d) % 2 == 0,
{
    let below = n / d;
    let rest = n % d;
    assert(n == below * d + rest) by {
        vstd::arithmetic::div_mod::lemma_fundamental_div_mod(n as int, d as int);
        assert(d * below == below * d) by (nonlinear_arith);
    }
    assert(0 <= rest < d);
    assert((below + 1) * d == below * d + d) by (nonlinear_arith);
}

/// `p` is a power of two.
pub open spec fn is_power_of_two(p: nat) -> bool
    decreases p,
{
    p == 1 || (p > 1 && p % 2 == 0 && is_power_of_two(p / 2))
}

/// The spacing of the doubles around `n` is the power of two that a mantissa
/// times which reaches `n`: `n` lies below `MANTISSA_END` times the spacing,
/// and, from `MANTISSA_END` on, at or above half of that.
pub proof fn lemma_double_spacing(n: nat)
    ensures
        is_power_of_two(double_spacing(n)),
        n < MANTISSA_END * double_spacing(n),
        n >= MANTISSA_END ==> 2 * n >= MANTISSA_END * double_spacing(n),
    decreases n,
{
    if n >= MANTISSA_END {
        lemma_double_spacing(n / 2);
        let inner = double_spacing(n / 2);
        assert(MANTISSA_END * (2 * inner) == 2 * (MANTISSA_END * inner)) by (nonlinear_arith);
        assert((2 * inner) / 2 == inner);
    }
}

/// The double nearest to a whole number is the multiple of the spacing that
/// lies nearest to it: it is off by at most half the spacing.
pub proof fn lemma_nearest_double_is_near(n: nat)
    ensures
        2 * (nearest_double(n) - n) <= double_spacing(n),
        2 * (n - nearest_double(n)) <= double_spacing(n),
        nearest_double(n) % double_spacing(n) == 0,
{
    lemma_double_spacing(n);
    lemma_round_half_even_is_nearest(n, double_spacing(n));
    vstd::arithmetic::div_mod::lemma_mod_multiples_basic(
        round_half_even(n, double_spacing(n)) as int,
        double_spacing(n) as int,
    );
}

/// The scale of an amount is the power of two that brings its quotient by
/// `UNITS_PER_DOLLAR` into the range of a mantissa, from `MANTISSA_END / 2`
/// up to `MANTISSA_END`, and the mantissa is the whole number nearest to the
/// scaled quotient: the mantissa over the scale is the double nearest to the
/// amount.
pub proof fn lemma_amount_mantissa(n: nat)
    requires
        0 < n < 2 * MANTISSA_SCALE_END,
    ensures
        is_power_of_two(mantissa_scale(n)),
        MANTISSA_SCALE_END <= n * mantissa_scale(n) < 2 * MANTISSA_SCALE_END,
        MANTISSA_END <= 2 * amount_mantissa(n) <= 2 * MANTISSA_END,
        2 * (amount_mantissa(n) * UNITS_PER_DOLLAR - n * mantissa_scale(n)) <= UNITS_PER_DOLLAR,
        2 * (n * mantissa_scale(n) - amount_mantissa(n) * UNITS_PER_DOLLAR) <= UNITS_PER_DOLLAR,
    decreases 2 * MANTISSA_SCALE_END - n,
{
    if n < MANTISSA_SCALE_END {
        lemma_amount_mantissa(2 * n);
        let inner = mantissa_scale(2 * n);
        assert(mantissa_scale(n) == 2 * inner);
        assert(n * (2 * inner) == (2 * n) * inner) by (nonlinear_arith);
        assert((2 * inner) / 2 == inner);
    } else {
        assert(mantissa_scale(n) == 1);
        assert(n * 1 == n);
    }
    let scaled = n * mantissa_scale(n);
    assert(MANTISSA_SCALE_END <= scaled < 2 * MANTISSA_SCALE_END);
    let below = scaled / 500_000;
    assert(MANTISSA_END <= 2 * below && below < MANTISSA_END);
    lemma_round_half_even_is_nearest(scaled, UNITS_PER_DOLLAR as nat);
}

/// A whole number below `MANTISSA_END` is a double.
pub proof fn lemma_small_numbers_are_doubles(n: nat)
    requires
        n < MANTISSA_END,
    ensures
        nearest_double(n) == n,
{
    assert(double_spacing(n) == 1);
    assert(round_half_even(n, 1) == n);
}

/// Amounts of so many and a half hundredths, each shown on the side on which
/// its double lies: up for half a hundredth, down for one and a half, and to
/// the even side for twelve and a half, whose double is exact.
pub proof fn lemma_half_hundredths()
    ensures
        shown_cents(2_500) == 1,
        shown_cents(7_500) == 1,
        shown_cents(62_500) == 12,
        shown_cents(750_000) == 150,
        shown_cents(0) == 0,
{
    reveal_with_fuel(mantissa_scale, 64);
    lemma_small_numbers_are_doubles(2_500);
    lemma_small_numbers_are_doubles(7_500);
    lemma_small_numbers_are_doubles(62_500);
    lemma_small_numbers_are_doubles(750_000);
    lemma_small_numbers_are_doubles(0);
    assert(mantissa_scale(2_500) == 0x1000_0000_0000_0000);
    assert(mantissa_scale(7_500) == 0x800_0000_0000_0000);
    assert(mantissa_scale(62_500) == 0x80_0000_0000_0000);
    assert(mantissa_scale(750_000) == 0x10_0000_0000_0000);
}

fn digit_text(d: u64) -> (text: &'static str)
    requires
        d < 10,
    ensures
        text@ == seq![digit_char(d as nat)],
{
    proof {
        reveal_strlit("0");
        reveal_strlit("1");
        reveal_strlit("2");
        reveal_strlit("3");
        reveal_strlit("4");
        reveal_strlit("5");
        reveal_strlit("6");
        reveal_strlit("7");
        reveal_strlit("8");
        reveal_strlit("9");
    }
    if d == 0 {
        "0"
    } else if d == 1 {
        "1"
    } else if d == 2 {
        "2"
    } else if d == 3 {
        "3"
    } else if d == 4 {
        "4"
    } else if d == 5 {
        "5"
    } else if d == 6 {
        "6"
    } else if d == 7 {
        "7"
    } else if d == 8 {
        "8"
    } else {
        "9"
    }
}

fn push_decimal(out: &mut String, n: u64)
    ensures
        final(out)@ == old(out)@ + decimal(n as nat),
    decreases n,
{
    if n >= 10 {
        push_decimal(out, n / 10);
    }
    out.append(digit_text(n % 10));
}

fn divide_half_even(n: u128, d: u128) -> (quotient: u128)
    requires
        d > 0,
        n < u128::MAX,
    ensures
        quotient == round_half_even(n as nat, d as nat),
        quotient <= n / d + 1,
{
    let below: u128 = n / d;
    let rest: u128 = n % d;
    if rest > d - rest || (rest == d - rest && below % 2 == 1) {
        below + 1
    } else {
        below
    }
}

fn to_double(units: u64) -> (n: u128)
    ensures
        n == nearest_double(units as nat),
        n <= 0x2_0000_0000_0000_0000,
{
    let mut rest: u128 = units as u128;
    let mut spacing: u128 = 1;
    while rest >= MANTISSA_END
        invariant
            double_spacing(units as nat) == spacing * double_spacing(rest as nat),
            rest * spacing <= units,
            spacing >= 1,
            rest >= 1 || spacing == 1,
        decreases rest,
    {
        proof {
            let inner = double_spacing((rest / 2) as nat);
            assert(spacing * (2 * inner) == (spacing * 2) * inner) by (nonlinear_arith);
            assert((rest / 2) * (spacing * 2) <= rest * spacing) by (nonlinear_arith)
                requires
                    2 * (rest / 2) <= rest,
                    spacing >= 1,
            ;
            assert(spacing <= rest * spacing) by (nonlinear_arith)
                requires
                    rest >= 1,
                    spacing >= 1,
            ;
        }
        rest = rest / 2;
        spacing = spacing * 2;
    }
    let multiple = divide_half_even(units as u128, spacing);
    proof {
        assert(double_spacing(rest as nat) == 1);
        assert(double_spacing(units as nat) == spacing) by (nonlinear_arith)
            requires
                double_spacing(units as nat) == spacing * double_spacing(rest as nat),
                double_spacing(rest as nat) == 1,
        ;
        assert(spacing <= units || spacing == 1) by (nonlinear_arith)
            requires
                rest * spacing <= units,
                spacing >= 1,
                rest >= 1 || spacing == 1,
        ;
        let whole: int = units as int / spacing as int;
        vstd::arithmetic::div_mod::lemma_fundamental_div_mod(units as int, spacing as int);
        assert(multiple * spacing <= units + spacing) by (nonlinear_arith)
            requires
                units == spacing * whole + (units as int % spacing as int),
                0 <= units as int % spacing as int,
                multiple <= whole + 1,
                spacing >= 1,
                multiple >= 0,
        ;
    }
    multiple * spacing
}

/// The hundredths of the display currency that are shown for an amount in
/// quota units.
pub fn to_cents(units: u64) -> (cents: u64)
    ensures
        cents == shown_cents(units as nat),
{
    let n = to_double(units);
    let mut scaled: u128 = n;
    let mut scale: u128 = 1;
    while 0 < scaled && scaled < MANTISSA_SCALE_END
        invariant
            scaled == n * scale,
            mantissa_scale(n as nat) == scale * mantissa_scale(scaled as nat),
            scale >= 1,
            scaled < 2 * MANTISSA_SCALE_END,
            n > 0 ==> scale <= scaled,
        decreases 2 * MANTISSA_SCALE_END - scaled,
    {
        proof {
            let inner = mantissa_scale((2 * scaled) as nat);
            assert(scale * (2 * inner) == (scale * 2) * inner) by (nonlinear_arith);
            assert(n * (scale * 2) == 2 * (n * scale)) by (nonlinear_arith);
        }
        scaled = scaled * 2;
        scale = scale * 2;
    }
    proof {
        assert(mantissa_scale(scaled as nat) == 1);
        assert(mantissa_scale(n as nat) == scale) by (nonlinear_arith)
            requires
                mantissa_scale(n as nat) == scale * mantissa_scale(scaled as nat),
                mantissa_scale(scaled as nat) == 1,
        ;
    }
    let mantissa = divide_half_even(scaled, UNITS_PER_DOLLAR as u128);
    assert(mantissa <= 2 * MANTISSA_END + 1) by {
        assert(scaled / 500_000 <= 2 * MANTISSA_SCALE_END / 500_000);
    }
    let cents = divide_half_even(100 * mantissa, scale);
    assert(cents <= 100 * mantissa + 1) by {
        let whole: int = 100 * mantissa;
        let by: int = scale as int;
        assert(whole / by <= whole) by (nonlinear_arith)
            requires
                by >= 1,
                whole >= 0,
        ;
    }
    cents as u64
}

/// Writes an amount of `cents` hundredths as currency text, such as `$12.34`.
pub fn format_cents(cents: u64) -> (text: String)
    ensures
        text@ == currency_text(cents as nat),
{
    proof {
        reveal_strlit("$");
        reveal_strlit(".");
    }
    let mut text = String::from_str("$");
    push_decimal(&mut text, cents / 100);
    text.append(".");
    text.append(digit_text(cents % 100 / 10));
    text.append(digit_text(cents % 10));
    text
}

impl BalanceData {
    /// What the status line shows for this balance: the mark for an unlimited
    /// account, else the mark for an overused one, else the remaining amount
    /// with two decimal places.
    pub open spec fn display(self) -> Seq<char> {
        if self.is_unlimited {
            UNLIMITED_MARK@
        } else if self.is_overused {
            OVERUSED_MARK@
        } else {
            currency_text(shown_cents(self.remaining_units as nat))
        }
    }

    /// Writes the text that the status line shows for this balance.
    pub fn format_display(&self) -> (text: String)
        ensures
            text@ == self.display(),
    {
        if self.is_unlimited {
            String::from_str(UNLIMITED_MARK)
        } else if self.is_overused {
            String::from_str(OVERUSED_MARK)
        } else {
            format_cents(to_cents(self.remaining_units))
        }
    }
}

} // verus!
