//! Integer arithmetic behind alignment and capacity decisions.
use std::ops::Range;
use vstd::arithmetic::div_mod::{lemma_fundamental_div_mod, lemma_mod_multiples_basic};
use vstd::arithmetic::mul::lemma_mul_is_commutative;
use vstd::prelude::*;

verus! {

/// Greatest common divisor, by Euclid's recursion.
pub open spec fn gcd(left: nat, right: nat) -> nat
    decreases right,
{
    if right == 0 {
        left
    } else {
        gcd(right, left % right)
    }
}

/// Least common multiple; zero when either argument is zero.
pub open spec fn lcm(left: nat, right: nat) -> nat {
    if left == 0 && right == 0 {
        0
    } else {
        left / gcd(left, right) * right
    }
}

/// `divisor` divides `value`.
pub open spec fn divides(divisor: int, value: int) -> bool {
    exists|factor: int| value == #[trigger] (divisor * factor)
}

proof fn lemma_divides_by(divisor: int, value: int, factor: int)
    requires
        value == divisor * factor,
    ensures
        divides(divisor, value),
{
}

proof fn lemma_divides_mod(divisor: int, value: int)
    requires
        divisor > 0,
        divides(divisor, value),
    ensures
        value % divisor == 0,
        value == divisor * (value / divisor),
{
    let factor = choose|factor: int| value == #[trigger] (divisor * factor);
    lemma_mul_is_commutative(divisor, factor);
    lemma_mod_multiples_basic(factor, divisor);
    lemma_fundamental_div_mod(value, divisor);
}

/// The greatest common divisor divides both numbers and is an integer
/// combination of them.
pub proof fn gcd_divides_both(left: nat, right: nat) -> (coefficients: (int, int))
    requires
        left > 0 || right > 0,
    ensures
        gcd(left, right) > 0,
        divides(gcd(left, right) as int, left as int),
        divides(gcd(left, right) as int, right as int),
        gcd(left, right) == left * coefficients.0 + right * coefficients.1,
    decreases right,
{
    let g = gcd(left, right) as int;
    if right == 0 {
        lemma_divides_by(g, left as int, 1);
        lemma_divides_by(g, right as int, 0);
        (1, 0)
    } else {
        let r: int = left as int % right as int;
        let q: int = left as int / right as int;
        let (x, y) = gcd_divides_both(right, (left % right) as nat);
        lemma_fundamental_div_mod(left as int, right as int);
        let a = choose|factor: int| right as int == #[trigger] (g * factor);
        let b = choose|factor: int| r == #[trigger] (g * factor);
        assert(left as int == g * (a * q + b)) by (nonlinear_arith)
            requires
                left as int == right as int * q + r,
                right as int == g * a,
                r == g * b,
        ;
        lemma_divides_by(g, left as int, a * q + b);
        assert(left * y + right * (x - q * y) == g) by (nonlinear_arith)
            requires
                left as int == right as int * q + r,
                g == right * x + r * y,
        ;
        (y, x - q * y)
    }
}

/// A common divisor of two numbers divides their greatest common divisor.
pub proof fn gcd_is_greatest(left: nat, right: nat, divisor: int)
    requires
        left > 0 || right > 0,
        divides(divisor, left as int),
        divides(divisor, right as int),
    ensures
        divides(divisor, gcd(left, right) as int),
{
    let (x, y) = gcd_divides_both(left, right);
    let a = choose|factor: int| left as int == #[trigger] (divisor * factor);
    let b = choose|factor: int| right as int == #[trigger] (divisor * factor);
    assert(left * x + right * y == divisor * (a * x + b * y)) by (nonlinear_arith)
        requires
            left as int == divisor * a,
            right as int == divisor * b,
    ;
    lemma_divides_by(divisor, gcd(left, right) as int, a * x + b * y);
}

/// The least common multiple of two positive numbers is a positive multiple
/// of both, and it divides, and so is at most, each of their positive common
/// multiples.
pub proof fn lcm_is_least_common_multiple(left: nat, right: nat, multiple: nat)
    requires
        left > 0,
        right > 0,
    ensures
        lcm(left, right) > 0,
        lcm(left, right) % left == 0,
        lcm(left, right) % right == 0,
        lcm(left, right) <= left * right,
        multiple % left == 0 && multiple % right == 0 ==> multiple % lcm(left, right) == 0,
        multiple > 0 && multiple % left == 0 && multiple % right == 0 ==> lcm(left, right)
            <= multiple,
{
    let (x, y) = gcd_divides_both(left, right);
    let g = gcd(left, right) as int;
    let l = lcm(left, right) as int;
    lemma_divides_mod(g, left as int);
    lemma_divides_mod(g, right as int);
    let a: int = left as int / g;
    let b: int = right as int / g;
    assert(a > 0 && b > 0) by (nonlinear_arith)
        requires
            left > 0,
            right > 0,
            g > 0,
            left == g * a,
            right == g * b,
    ;
    assert(l == a * right);
    assert(l > 0 && l == left * b && l <= left * right) by (nonlinear_arith)
        requires
            l == a * right,
            right > 0,
            a > 0,
            g > 0,
            left == g * a,
            right == g * b,
    ;
    lemma_divides_by(left as int, l, b);
    lemma_divides_mod(left as int, l);
    lemma_mul_is_commutative(a, right as int);
    lemma_divides_by(right as int, l, a);
    lemma_divides_mod(right as int, l);
    if multiple % left == 0 && multiple % right == 0 {
        let m = multiple as int;
        lemma_fundamental_div_mod(m, left as int);
        lemma_fundamental_div_mod(m, right as int);
        let j: int = m / left as int;
        let k: int = m / right as int;
        assert(a * x + b * y == 1) by (nonlinear_arith)
            requires
                g > 0,
                g == left * x + right * y,
                left == g * a,
                right == g * b,
        ;
        assert(m == l * (k * x + j * y)) by (nonlinear_arith)
            requires
                a * x + b * y == 1,
                m == left * j,
                m == right * k,
                l == a * right,
                l == left * b,
        ;
        lemma_divides_by(l, m, k * x + j * y);
        lemma_divides_mod(l, m);
        if m > 0 {
            assert(m >= l) by (nonlinear_arith)
                requires
                    m > 0,
                    l > 0,
                    m == l * (m / l),
            ;
        }
    }
}

/// The least common multiple of `left` and `right`.
pub fn least_common_multiple(left: u64, right: u64) -> (result: u64)
    requires
        left != 0 || right != 0,
        lcm(left as nat, right as nat) <= u64::MAX,
    ensures
        result == lcm(left as nat, right as nat),
{
    let mut first: u64 = left;
    let mut second: u64 = right;
    while second != 0
        invariant
            gcd(first as nat, second as nat) == gcd(left as nat, right as nat),
            first != 0 || second != 0,
        decreases second,
    {
        let remainder: u64 = first % second;
        first = second;
        second = remainder;
    }
    left / first * right
}

/// `value` rounded up to a multiple of `alignment`.
pub open spec fn align_up(value: int, alignment: int) -> int {
    if value % alignment == 0 {
        value
    } else {
        value + alignment - value % alignment
    }
}

/// Rounding up gives the least multiple that is not below the value.
pub proof fn align_up_is_least_multiple(value: int, alignment: int, multiple: int)
    requires
        alignment > 0,
    ensures
        align_up(value, alignment) % alignment == 0,
        value <= align_up(value, alignment) < value + alignment,
        multiple >= value && multiple % alignment == 0 ==> align_up(value, alignment) <= multiple,
{
    lemma_fundamental_div_mod(value, alignment);
    let q = value / alignment;
    let up = align_up(value, alignment);
    let k = if value % alignment == 0 {
        q
    } else {
        q + 1
    };
    assert(up == k * alignment) by (nonlinear_arith)
        requires
            value == alignment * q + value % alignment,
            up == if value % alignment == 0 {
                value
            } else {
                value + alignment - value % alignment
            },
            k == if value % alignment == 0 {
                q
            } else {
                q + 1
            },
    ;
    lemma_mod_multiples_basic(k, alignment);
    if multiple >= value && multiple % alignment == 0 && up > multiple {
        lemma_fundamental_div_mod(multiple, alignment);
        let j = multiple / alignment;
        assert(j >= k) by (nonlinear_arith)
            requires
                alignment > 0,
                multiple == alignment * j,
                multiple >= value,
                up == k * alignment,
                up < value + alignment,
        ;
        assert(up <= multiple) by (nonlinear_arith)
            requires
                j >= k,
                alignment > 0,
                up == k * alignment,
                multiple == alignment * j,
        ;
    }
}

/// Rounds `value` up to a multiple of `alignment`.
pub fn next_multiple_of(value: u64, alignment: u64) -> (result: u64)
    requires
        alignment > 0,
        align_up(value as int, alignment as int) <= u64::MAX,
    ensures
        result == align_up(value as int, alignment as int),
{
    let remainder: u64 = value % alignment;
    if remainder == 0 {
        value
    } else {
        value + (alignment - remainder)
    }
}

/// `value / divisor`, rounded up.
pub open spec fn ceil_div(value: int, divisor: int) -> int {
    if value % divisor == 0 {
        value / divisor
    } else {
        value / divisor + 1
    }
}

/// Division rounding up gives the least count of `divisor`-sized pieces that
/// hold `value`.
pub proof fn ceil_div_is_least_cover(value: int, divisor: int)
    requires
        divisor > 0,
    ensures
        ceil_div(value, divisor) * divisor >= value,
        ceil_div(value, divisor) * divisor < value + divisor,
        value >= 0 ==> ceil_div(value, divisor) >= 0,
        value > 0 ==> ceil_div(value, divisor) > 0,
{
    lemma_fundamental_div_mod(value, divisor);
    let q = value / divisor;
    let c = ceil_div(value, divisor);
    assert(c * divisor >= value && c * divisor < value + divisor && (value > 0 ==> c > 0) && (value
        >= 0 ==> c >= 0)) by (nonlinear_arith)
        requires
            divisor > 0,
            value == divisor * q + value % divisor,
            0 <= value % divisor < divisor,
            c == if value % divisor == 0 {
                q
            } else {
                q + 1
            },
    ;
}

/// Divides rounding up.
pub fn div_ceil(value: u64, divisor: u64) -> (result: u64)
    requires
        divisor > 0,
    ensures
        result == ceil_div(value as int, divisor as int),
{
    let quotient: u64 = value / divisor;
    if value % divisor == 0 {
        quotient
    } else {
        assert(quotient < value || divisor == 1) by (nonlinear_arith)
            requires
                quotient == value / divisor,
                divisor > 0,
                value % divisor != 0,
        ;
        quotient + 1
    }
}

/// `value` is one, or twice a power of two.
pub open spec fn is_power_of_two(value: nat) -> bool
    decreases value,
{
    value == 1 || (value > 0 && value % 2 == 0 && is_power_of_two(value / 2))
}

/// The least power of two that is not below `value`.
pub open spec fn ceil_power_of_two(value: nat) -> nat
    decreases value,
{
    if value <= 1 {
        1
    } else {
        2 * ceil_power_of_two((value + 1) / 2)
    }
}

/// The power of two that [`ceil_power_of_two`] names is at least the value
/// and less than twice as large.
pub proof fn ceil_power_of_two_is_least(value: nat)
    ensures
        is_power_of_two(ceil_power_of_two(value)),
        ceil_power_of_two(value) >= value,
        value >= 1 ==> ceil_power_of_two(value) < 2 * value,
    decreases value,
{
    if value > 1 {
        ceil_power_of_two_is_least((value + 1) / 2);
        assert(2 * ceil_power_of_two((value + 1) / 2) / 2 == ceil_power_of_two((value + 1) / 2));
    }
}

proof fn lemma_ceil_power_of_two_from(power: nat, value: nat)
    requires
        is_power_of_two(power),
        power >= value,
        power == 1 || power / 2 < value,
    ensures
        power == ceil_power_of_two(value),
    decreases power,
{
    if power > 1 {
        lemma_ceil_power_of_two_from(power / 2, (value + 1) / 2);
    }
}

/// Rounds `value` up to a power of two.
pub fn next_power_of_two(value: u64) -> (result: u64)
    requires
        ceil_power_of_two(value as nat) <= u64::MAX,
    ensures
        result == ceil_power_of_two(value as nat),
{
    let mut power: u64 = 1;
    while power < value
        invariant
            is_power_of_two(power as nat),
            power > 0,
            power == 1 || power / 2 < value,
            ceil_power_of_two(value as nat) <= u64::MAX,
        decreases 2 * value - power,
    {
        proof {
            lemma_power_below(power as nat, value as nat);
        }
        power = power * 2;
        assert(power as nat / 2 * 2 == power);
    }
    proof {
        lemma_ceil_power_of_two_from(power as nat, value as nat);
    }
    power
}

proof fn lemma_power_below(power: nat, value: nat)
    requires
        is_power_of_two(power),
        power < value,
    ensures
        2 * power <= ceil_power_of_two(value),
    decreases power,
{
    if power > 1 {
        lemma_power_below(power / 2, (value + 1) / 2);
    } else {
        ceil_power_of_two_is_least(value);
    }
}

/// The larger of two numbers.
pub open spec fn max_of(left: int, right: int) -> int {
    if left < right {
        right
    } else {
        left
    }
}

/// The smaller of two numbers.
pub open spec fn min_of(left: int, right: int) -> int {
    if right < left {
        right
    } else {
        left
    }
}

/// The larger of two sizes.
pub fn max_u64(left: u64, right: u64) -> (result: u64)
    ensures
        result == max_of(left as int, right as int),
{
    if left < right {
        right
    } else {
        left
    }
}

/// The smaller of two sizes.
pub fn min_u64(left: u64, right: u64) -> (result: u64)
    ensures
        result == min_of(left as int, right as int),
{
    if right < left {
        right
    } else {
        left
    }
}

/// Narrows a range of record indices to the width of a draw call's indices.
/// Indices beyond that width keep their low bits.
pub fn instance_range(range: Range<usize>) -> (result: Range<u32>)
    ensures
        result.start == range.start as u32,
        result.end == range.end as u32,
        range.start <= u32::MAX ==> result.start == range.start,
        range.end <= u32::MAX ==> result.end == range.end,
{
    Range { start: range.start as u32, end: range.end as u32 }
}

} // verus!
