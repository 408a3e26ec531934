//! Numbers in double precision that are not negative, by the bits of their IEEE 754 form.

use vstd::arithmetic::div_mod::{lemma_fundamental_div_mod, lemma_fundamental_div_mod_converse};
use vstd::arithmetic::power2::{
    lemma2_to64, lemma2_to64_rest, lemma_pow2_adds, lemma_pow2_pos, lemma_pow2_unfold, pow2,
};
use vstd::prelude::*;

verus! {

/// The number of values that the fraction of a number can have, `2^52`.
pub const FRACTIONS: u64 = 4503599627370496;

/// The bits of 1.
pub const ONE: u64 = 4607182418800017408;

/// The bits of the distance from 1 to the next number, `2^-52`.
pub const EPSILON: u64 = 4372995238176751616;

/// The bits of `2^54`. No sum of this and a number up to 1 differs from it.
pub const LIMIT: u64 = 4850376798678024192;

// ---------------------------------------------------------------------------
// What bits stand for
// ---------------------------------------------------------------------------

/// The significand of a number, as an integer.
pub open spec fn significand(bits: u64) -> int {
    if bits < FRACTIONS {
        bits as int
    } else {
        FRACTIONS + bits % FRACTIONS
    }
}

/// By how many doublings the significand is scaled.
pub open spec fn scale(bits: u64) -> nat {
    if bits < FRACTIONS {
        0
    } else {
        (bits / FRACTIONS - 1) as nat
    }
}

/// The number that bits stand for, in units of the smallest one, `2^-1074`.
pub open spec fn value(bits: u64) -> int {
    significand(bits) * pow2(scale(bits))
}

/// By how many doublings the significand of a whole number of units is scaled.
pub open spec fn doublings(units: int) -> nat
    decreases units,
{
    if units < 2 * FRACTIONS {
        0
    } else {
        1 + doublings(units / 2)
    }
}

/// `number / part`, rounded to the nearest integer, and to an even one from the middle.
pub open spec fn rounded(number: int, part: int) -> int {
    let floor = number / part;
    let rest = number % part;
    if 2 * rest > part || (2 * rest == part && floor % 2 == 1) {
        floor + 1
    } else {
        floor
    }
}

/// The bits of the number nearest to so many units; from the middle, of the one with an even
/// significand. A significand that was rounded up to the next power of two carries into the scale.
pub open spec fn nearest(units: int) -> int {
    doublings(units) * FRACTIONS + rounded(units, pow2(doublings(units)) as int)
}

/// Half of a number.
pub open spec fn half_of(bits: u64) -> u64 {
    nearest(rounded(value(bits), 2)) as u64
}

/// The sum of two numbers.
pub open spec fn sum_of(left: u64, right: u64) -> u64 {
    nearest(value(left) + value(right)) as u64
}

/// How far a number is above another one, or 0.
pub open spec fn above(left: u64, right: u64) -> u64 {
    if left > right {
        apart(left, right)
    } else {
        0
    }
}

/// The difference of two numbers, whichever is larger.
pub open spec fn apart(left: u64, right: u64) -> u64 {
    if left > right {
        nearest(value(left) - value(right)) as u64
    } else {
        nearest(value(right) - value(left)) as u64
    }
}

// ---------------------------------------------------------------------------
// Scales
// ---------------------------------------------------------------------------

/// A number of units between two powers of two has the scale that goes with them.
pub proof fn lemma_doublings(units: int, count: nat)
    requires
        count > 0 ==> FRACTIONS * pow2(count) <= units,
        0 <= units < 2 * FRACTIONS * pow2(count),
    ensures
        doublings(units) == count,
    decreases count,
{
    if count > 0 {
        lemma_pow2_unfold(count);
        let less = pow2((count - 1) as nat) as int;
        assert(pow2(count) == 2 * less);
        lemma_pow2_pos((count - 1) as nat);
        assert(FRACTIONS * pow2(count) == 2 * (FRACTIONS * less)) by (nonlinear_arith)
            requires
                pow2(count) == 2 * less,
        ;
        assert(2 * FRACTIONS * pow2(count) == 2 * (2 * FRACTIONS * less)) by (nonlinear_arith)
            requires
                pow2(count) == 2 * less,
        ;
        assert(FRACTIONS * less >= FRACTIONS) by (nonlinear_arith)
            requires
                less >= 1,
        ;
        lemma_doublings(units / 2, (count - 1) as nat);
    } else {
        lemma2_to64();
        assert(2 * FRACTIONS * pow2(count) == 2 * FRACTIONS) by (nonlinear_arith)
            requires
                pow2(count) == 1,
        ;
    }
}

/// Scaling a significand scales its rounding.
proof fn lemma_rounded_scaled(number: int, part: int, factor: int)
    requires
        number >= 0,
        part > 0,
        factor > 0,
    ensures
        rounded(number * factor, part * factor) == rounded(number, part),
{
    let floor = number / part;
    let rest = number % part;
    lemma_fundamental_div_mod(number, part);
    assert(number * factor == floor * (part * factor) + rest * factor) by (nonlinear_arith)
        requires
            number == part * floor + rest,
    ;
    assert(0 <= rest * factor < part * factor) by (nonlinear_arith)
        requires
            0 <= rest < part,
            factor > 0,
    ;
    lemma_fundamental_div_mod_converse(number * factor, part * factor, floor, rest * factor);
    assert((2 * (rest * factor) > part * factor) == (2 * rest > part)) by (nonlinear_arith)
        requires
            factor > 0,
    ;
    assert((2 * (rest * factor) == part * factor) == (2 * rest == part)) by (nonlinear_arith)
        requires
            factor > 0,
    ;
}

/// The number nearest to a significand with a scale, where so many binary digits of the
/// significand are too many.
proof fn lemma_nearest(number: int, extra: nat, scaled: nat)
    requires
        0 <= number < 2 * FRACTIONS * pow2(extra),
        extra + scaled > 0 ==> FRACTIONS * pow2(extra) <= number,
    ensures
        nearest(number * pow2(scaled)) == (extra + scaled) * FRACTIONS + rounded(
            number,
            pow2(extra) as int,
        ),
{
    let factor = pow2(scaled) as int;
    let part = pow2(extra) as int;
    lemma_pow2_pos(scaled);
    lemma_pow2_pos(extra);
    lemma_pow2_adds(extra, scaled);
    let units = number * factor;
    let whole = pow2(extra + scaled) as int;
    assert(whole == part * factor);
    assert(0 <= units < 2 * FRACTIONS * whole) by (nonlinear_arith)
        requires
            0 <= number < 2 * FRACTIONS * part,
            factor > 0,
            units == number * factor,
            whole == part * factor,
    ;
    if extra + scaled > 0 {
        assert(FRACTIONS * whole <= units) by (nonlinear_arith)
            requires
                FRACTIONS * part <= number,
                factor > 0,
                units == number * factor,
                whole == part * factor,
        ;
    }
    lemma_doublings(units, extra + scaled);
    lemma_rounded_scaled(number, part, factor);
}

proof fn lemma_bits(bits: u64)
    ensures
        0 <= significand(bits) < 2 * FRACTIONS,
        scale(bits) > 0 ==> significand(bits) >= FRACTIONS,
        bits == scale(bits) * FRACTIONS + significand(bits),
{
    lemma_fundamental_div_mod(bits as int, FRACTIONS as int);
}

/// A number is the one nearest to itself.
pub proof fn lemma_nearest_to_itself(bits: u64)
    ensures
        nearest(value(bits)) == bits,
        value(bits) >= 0,
{
    lemma_bits(bits);
    lemma2_to64();
    lemma_nearest(significand(bits), 0, scale(bits));
    lemma_pow2_pos(scale(bits));
    assert(value(bits) >= 0) by (nonlinear_arith)
        requires
            significand(bits) >= 0,
            pow2(scale(bits)) > 0,
            value(bits) == significand(bits) * pow2(scale(bits)),
    ;
    assert(rounded(significand(bits), 1) == significand(bits));
}

/// The number nearest to something that is not above a number is not above it either.
pub proof fn lemma_nearest_not_above(units: int, bits: u64)
    requires
        0 <= units <= value(bits),
    ensures
        0 <= nearest(units) <= bits,
{
    lemma_bits(bits);
    let top = significand(bits);
    let scaled = scale(bits);
    let part = pow2(scaled) as int;
    lemma_pow2_pos(scaled);
    assert(units < 2 * FRACTIONS * part) by (nonlinear_arith)
        requires
            units <= top * part,
            top < 2 * FRACTIONS,
            part > 0,
    ;
    lemma_small(units, scaled);
    let count = doublings(units);
    let own = pow2(count) as int;
    lemma_pow2_pos(count);
    let floor = units / own;
    let rest = units % own;
    lemma_fundamental_div_mod(units, own);
    assert(floor >= 0) by (nonlinear_arith)
        requires
            units == own * floor + rest,
            rest < own,
            units >= 0,
            own > 0,
    ;
    if count == scaled {
        assert(floor < top || (floor == top && rest == 0)) by (nonlinear_arith)
            requires
                units == own * floor + rest,
                0 <= rest < own,
                units <= top * own,
        ;
    } else {
        assert(floor < 2 * FRACTIONS);
        assert((count + 1) * FRACTIONS <= scaled * FRACTIONS) by (nonlinear_arith)
            requires
                count + 1 <= scaled,
        ;
    }
}

/// What is below a power of two has no larger scale than goes with it, and its significand fits.
proof fn lemma_small(units: int, count: nat)
    requires
        0 <= units < 2 * FRACTIONS * pow2(count),
    ensures
        doublings(units) <= count,
        units / (pow2(doublings(units)) as int) < 2 * FRACTIONS,
    decreases count,
{
    lemma2_to64();
    if units >= 2 * FRACTIONS {
        if count == 0 {
            assert(2 * FRACTIONS * pow2(count) == 2 * FRACTIONS) by (nonlinear_arith)
                requires
                    pow2(count) == 1,
            ;
        }
        lemma_pow2_unfold(count);
        let less = pow2((count - 1) as nat) as int;
        assert(2 * FRACTIONS * pow2(count) == 2 * (2 * FRACTIONS * less)) by (nonlinear_arith)
            requires
                pow2(count) == 2 * less,
        ;
        lemma_small(units / 2, (count - 1) as nat);
        let inner = doublings(units / 2);
        lemma_pow2_unfold(inner + 1);
        lemma_pow2_pos(inner);
        vstd::arithmetic::div_mod::lemma_div_denominator(units, 2, pow2(inner) as int);
    }
}

/// The bits of numbers are in the order of the numbers.
pub proof fn law_bits_are_in_order(left: u64, right: u64)
    ensures
        left < right <==> value(left) < value(right),
        left == right <==> value(left) == value(right),
{
    lemma_nearest_to_itself(left);
    lemma_nearest_to_itself(right);
    if value(left) <= value(right) {
        lemma_nearest_not_above(value(left), right);
    }
    if value(right) <= value(left) {
        lemma_nearest_not_above(value(right), left);
    }
}

/// A number and one that is at most 1 have no sum above `2^54` if the number is not above it.
pub proof fn lemma_sum_stays(left: u64, right: u64)
    requires
        left <= LIMIT,
        right <= ONE,
    ensures
        0 <= nearest(value(left) + value(right)) <= LIMIT,
{
    lemma_nearest_to_itself(left);
    lemma_nearest_to_itself(right);
    law_bits_are_in_order(left, LIMIT);
    law_bits_are_in_order(right, ONE);
    let units = value(left) + value(right);
    if units <= value(LIMIT) {
        lemma_nearest_not_above(units, LIMIT);
    } else {
        assert(significand(LIMIT) == FRACTIONS && scale(LIMIT) == 1076);
        assert(significand(ONE) == FRACTIONS && scale(ONE) == 1022);
        let part = pow2(1076) as int;
        lemma_pow2_adds(1022, 54);
        lemma2_to64();
        lemma_pow2_pos(1022);
        lemma_pow2_pos(1076);
        lemma2_to64_rest();
        assert(pow2(54) == 18014398509481984);
        let small = pow2(1022) as int;
        assert(part == small * 18014398509481984);
        assert(value(ONE) == FRACTIONS * small);
        assert(value(LIMIT) == FRACTIONS * part);
        assert(4 * (FRACTIONS * small) == part) by (nonlinear_arith)
            requires
                part == small * 18014398509481984,
        ;
        let rest = units - FRACTIONS * part;
        assert(0 <= rest && 4 * rest <= part);
        assert(units < 2 * FRACTIONS * part) by (nonlinear_arith)
            requires
                units == FRACTIONS * part + rest,
                4 * rest <= part,
                part > 0,
        ;
        lemma_doublings(units, 1076);
        lemma_fundamental_div_mod_converse(units, part, FRACTIONS as int, rest);
    }
}

/// A number of units with no more binary digits than a significand has, but for zeros at the end,
/// is not rounded.
pub proof fn lemma_exact(number: int, scaled: nat)
    requires
        0 <= number <= 2 * FRACTIONS,
        scaled <= 4093,
    ensures
        0 <= nearest(number * pow2(scaled)) <= u64::MAX,
        value(nearest(number * pow2(scaled)) as u64) == number * pow2(scaled),
    decreases scaled,
{
    lemma2_to64();
    if number == 2 * FRACTIONS {
        lemma_pow2_unfold(scaled + 1);
        assert(number * pow2(scaled) == FRACTIONS * pow2(scaled + 1)) by (nonlinear_arith)
            requires
                number == 2 * FRACTIONS,
                pow2(scaled + 1) == 2 * pow2(scaled),
        ;
        lemma_exact_significand(FRACTIONS as int, scaled + 1);
    } else if number >= FRACTIONS || scaled == 0 {
        lemma_exact_significand(number, scaled);
    } else {
        let less = (scaled - 1) as nat;
        lemma_pow2_unfold(scaled);
        assert(number * pow2(scaled) == (2 * number) * pow2(less)) by (nonlinear_arith)
            requires
                pow2(scaled) == 2 * pow2(less),
        ;
        lemma_exact(2 * number, less);
    }
}

proof fn lemma_exact_significand(number: int, scaled: nat)
    requires
        0 <= number < 2 * FRACTIONS,
        scaled > 0 ==> number >= FRACTIONS,
        scaled <= 4094,
    ensures
        0 <= nearest(number * pow2(scaled)) <= u64::MAX,
        value(nearest(number * pow2(scaled)) as u64) == number * pow2(scaled),
{
    lemma2_to64();
    lemma_nearest(number, 0, scaled);
    assert(rounded(number, 1) == number);
    let bits = scaled * FRACTIONS + number;
    assert(0 <= bits <= u64::MAX) by (nonlinear_arith)
        requires
            0 <= scaled <= 4094,
            0 <= number < 2 * FRACTIONS,
            bits == scaled * FRACTIONS + number,
    ;
    if number >= FRACTIONS {
        assert(bits == (scaled + 1) * FRACTIONS + (number - FRACTIONS)) by (nonlinear_arith)
            requires
                bits == scaled * FRACTIONS + number,
        ;
        lemma_fundamental_div_mod_converse(
            bits,
            FRACTIONS as int,
            (scaled + 1) as int,
            number - FRACTIONS,
        );
        assert(bits >= FRACTIONS) by (nonlinear_arith)
            requires
                bits == scaled * FRACTIONS + number,
                number >= FRACTIONS,
                scaled >= 0,
        ;
    }
}

/// How far apart two numbers of units are.
pub open spec fn distance(left: int, right: int) -> int {
    if left > right {
        left - right
    } else {
        right - left
    }
}

/// No number is nearer to so many units than the nearest one, whatever its bits. The units are not
/// above some finite number, `top`.
pub proof fn law_nothing_is_nearer(units: int, top: u64, other: u64)
    requires
        0 <= units <= value(top),
        top < 2047 * FRACTIONS,
    ensures
        0 <= nearest(units) <= top,
        distance(value(nearest(units) as u64), units) <= distance(value(other), units),
{
    lemma_nearest_not_above(units, top);
    lemma_bits(top);
    lemma_bits(other);
    let scaled = scale(top);
    lemma_pow2_pos(scaled);
    assert(units < 2 * FRACTIONS * pow2(scaled)) by (nonlinear_arith)
        requires
            units <= significand(top) * pow2(scaled),
            significand(top) < 2 * FRACTIONS,
            pow2(scaled) > 0,
    ;
    lemma_small(units, scaled);
    lemma_large(units);
    let count = doublings(units);
    let own = pow2(count) as int;
    lemma_pow2_pos(count);
    let floor = units / own;
    let rest = units % own;
    let place = rounded(units, own);
    lemma_fundamental_div_mod(units, own);
    assert(floor >= 0) by (nonlinear_arith)
        requires
            units == own * floor + rest,
            rest < own,
            units >= 0,
            own > 0,
    ;
    lemma_exact(place, count);
    assert(nearest(place * own) == nearest(units) && value(nearest(units) as u64) == place * own)
        by {
        if place == 2 * FRACTIONS {
            lemma_pow2_unfold(count + 1);
            lemma2_to64();
            assert(place * own == FRACTIONS * pow2(count + 1)) by (nonlinear_arith)
                requires
                    place == 2 * FRACTIONS,
                    pow2(count + 1) == 2 * own,
            ;
            lemma_nearest(FRACTIONS as int, 0, count + 1);
            assert(rounded(FRACTIONS as int, 1) == FRACTIONS);
            assert((count + 1) * FRACTIONS + FRACTIONS == count * FRACTIONS + place)
                by (nonlinear_arith)
                requires
                    place == 2 * FRACTIONS,
            ;
        } else {
            lemma2_to64();
            assert(count > 0 ==> floor >= FRACTIONS) by (nonlinear_arith)
                requires
                    units == own * floor + rest,
                    rest < own,
                    own > 0,
                    count > 0 ==> FRACTIONS * own <= units,
            ;
            lemma_nearest(place, 0, count);
            assert(rounded(place, 1) == place);
        }
    }
    assert(place == floor + 1 ==> place * own == floor * own + own) by (nonlinear_arith);
    assert(floor * own == own * floor) by (nonlinear_arith);
    let length = significand(other);
    if scale(other) >= count {
        let more = (scale(other) - count) as nat;
        lemma_pow2_adds(count, more);
        let whole = length * pow2(more);
        assert(value(other) == whole * own) by (nonlinear_arith)
            requires
                value(other) == length * pow2(scale(other)),
                pow2(scale(other)) == own * pow2(more),
                whole == length * pow2(more),
        ;
        assert(whole * own <= floor * own || whole * own >= floor * own + own) by (nonlinear_arith)
            requires
                own > 0,
        ;
    } else {
        let less = (count - 1 - scale(other)) as nat;
        lemma_pow2_adds(scale(other), less + 1);
        lemma_pow2_unfold(less + 1);
        lemma_pow2_pos(less);
        lemma_pow2_pos(scale(other));
        assert(value(other) <= FRACTIONS * own) by (nonlinear_arith)
            requires
                value(other) == length * pow2(scale(other)),
                own == pow2(scale(other)) * (2 * pow2(less)),
                pow2(less) >= 1,
                pow2(scale(other)) >= 1,
                0 <= length < 2 * FRACTIONS,
        ;
        assert(FRACTIONS * own <= floor * own) by (nonlinear_arith)
            requires
                units == own * floor + rest,
                rest < own,
                own > 0,
                FRACTIONS * own <= units,
        ;
    }
}

/// What has a scale is not below the power of two that goes with it.
proof fn lemma_large(units: int)
    ensures
        doublings(units) > 0 ==> FRACTIONS * pow2(doublings(units)) <= units,
    decreases units,
{
    if units >= 2 * FRACTIONS {
        lemma_large(units / 2);
        let inner = doublings(units / 2);
        lemma_pow2_unfold(inner + 1);
        lemma2_to64();
        assert(FRACTIONS * pow2(inner + 1) == 2 * (FRACTIONS * pow2(inner))) by (nonlinear_arith)
            requires
                pow2(inner + 1) == 2 * pow2(inner),
        ;
        if inner == 0 {
            assert(FRACTIONS * pow2(inner) == FRACTIONS) by (nonlinear_arith)
                requires
                    pow2(inner) == 1,
            ;
        }
    }
}

/// Half of a number and what is left of it make up the number.
pub proof fn law_halves_add_up(bits: u64)
    ensures
        value(half_of(bits)) + value(apart(bits, half_of(bits))) == value(bits),
{
    lemma_bits(bits);
    lemma2_to64();
    lemma_half_not_above(bits);
    lemma_apart_not_above(bits, half_of(bits));
    let number = significand(bits);
    let scaled = scale(bits);
    if scaled == 0 {
        let share = rounded(number, 2);
        assert(value(bits) == number) by (nonlinear_arith)
            requires
                value(bits) == number * pow2(0),
                pow2(0) == 1,
        ;
        lemma_exact(share, 0);
        lemma_exact(number - share, 0);
        assert(share * pow2(0) == share && (number - share) * pow2(0) == number - share)
            by (nonlinear_arith)
            requires
                pow2(0) == 1,
        ;
    } else {
        let less = (scaled - 1) as nat;
        lemma_pow2_unfold(scaled);
        let share = number * pow2(less);
        assert(value(bits) == 2 * share) by (nonlinear_arith)
            requires
                value(bits) == number * pow2(scaled),
                pow2(scaled) == 2 * pow2(less),
                share == number * pow2(less),
        ;
        assert(rounded(2 * share, 2) == share);
        assert(less <= 4093) by (nonlinear_arith)
            requires
                bits == (less + 1) * FRACTIONS + number,
                number >= FRACTIONS,
                bits <= u64::MAX,
        ;
        lemma_exact(number, less);
    }
}

/// Half of a number is not above it.
pub proof fn lemma_half_not_above(bits: u64)
    ensures
        half_of(bits) <= bits,
        nearest(rounded(value(bits), 2)) == half_of(bits),
{
    lemma_nearest_to_itself(bits);
    lemma_nearest_not_above(rounded(value(bits), 2), bits);
}

/// The difference of two numbers is not above the larger one.
pub proof fn lemma_apart_not_above(left: u64, right: u64)
    ensures
        left >= right ==> apart(left, right) <= left && apart(left, right) == nearest(
            value(left) - value(right),
        ),
        left <= right ==> apart(left, right) <= right && apart(left, right) == nearest(
            value(right) - value(left),
        ),
{
    lemma_nearest_to_itself(left);
    lemma_nearest_to_itself(right);
    law_bits_are_in_order(left, right);
    law_bits_are_in_order(right, left);
    if left >= right {
        lemma_nearest_not_above(value(left) - value(right), left);
    }
    if left <= right {
        lemma_nearest_not_above(value(right) - value(left), right);
    }
}

// ---------------------------------------------------------------------------
// Calculating
// ---------------------------------------------------------------------------

fn power(count: u64) -> (result: u128)
    requires
        count <= 70,
    ensures
        result == pow2(count as nat),
        1 <= result <= 1180591620717411303424,
{
    let mut result: u128 = 1;
    let mut at: u64 = 0;
    proof {
        lemma2_to64();
    }
    while at < count
        invariant
            at <= count <= 70,
            result == pow2(at as nat),
            1 <= result,
        decreases count - at,
    {
        proof {
            lemma_pow2_unfold((at + 1) as nat);
            lemma_power_bound((at + 1) as nat);
        }
        result = 2 * result;
        at = at + 1;
    }
    proof {
        lemma_power_bound(count as nat);
    }
    result
}

proof fn lemma_power_bound(count: nat)
    requires
        count <= 70,
    ensures
        pow2(count) <= 1180591620717411303424,
{
    lemma2_to64();
    lemma_pow2_adds(count, (70 - count) as nat);
    lemma_pow2_adds(64, 6);
    lemma_pow2_pos((70 - count) as nat);
    assert(pow2(70) == 1180591620717411303424);
    assert(pow2(count) <= pow2(count) * pow2((70 - count) as nat)) by (nonlinear_arith)
        requires
            pow2((70 - count) as nat) >= 1,
    ;
}

fn round(number: u128, part: u128) -> (result: u128)
    requires
        part > 0,
        number <= 340282366920938463463374607431768211454,
        part <= 1180591620717411303424,
    ensures
        result == rounded(number as int, part as int),
{
    let floor: u128 = number / part;
    let rest: u128 = number % part;
    if 2 * rest > part || (2 * rest == part && floor % 2 == 1) {
        floor + 1
    } else {
        floor
    }
}

/// The bits of the number nearest to a significand with a scale.
fn pack(number: u128, scaled: u64) -> (bits: u64)
    requires
        number < 1329227995784915872903807060280344576,
        scaled <= 1076,
    ensures
        bits == nearest(number as int * pow2(scaled as nat)),
{
    let mut number = number;
    let mut scaled = scaled;
    let ghost units = number as int * pow2(scaled as nat);
    proof {
        lemma2_to64();
    }
    while scaled > 0 && number < FRACTIONS as u128
        invariant
            scaled <= 1076,
            number < 1329227995784915872903807060280344576,
            units == number as int * pow2(scaled as nat),
        decreases scaled,
    {
        proof {
            lemma_pow2_unfold(scaled as nat);
            let less = pow2((scaled - 1) as nat) as int;
            assert(number as int * pow2(scaled as nat) == (2 * number) as int * less)
                by (nonlinear_arith)
                requires
                    pow2(scaled as nat) == 2 * less,
            ;
        }
        number = 2 * number;
        scaled = scaled - 1;
    }
    let mut extra: u64 = 0;
    let mut part: u128 = 1;
    while number / part >= 2 * FRACTIONS as u128
        invariant
            extra <= 67,
            part == pow2(extra as nat),
            1 <= part <= 147573952589676412928,
            number < 1329227995784915872903807060280344576,
            extra > 0 ==> FRACTIONS * part <= number,
        decreases 67 - extra,
    {
        proof {
            lemma_pow2_unfold((extra + 1) as nat);
            lemma_fundamental_div_mod(number as int, part as int);
            assert(2 * FRACTIONS * part <= number) by (nonlinear_arith)
                requires
                    number == part * (number as int / part as int) + number as int % part as int,
                    number as int / part as int >= 2 * FRACTIONS,
                    number as int % part as int >= 0,
                    part >= 1,
            ;
            if extra >= 66 {
                lemma2_to64();
                lemma_pow2_adds(66, (extra - 66) as nat);
                lemma_pow2_adds(64, 2);
                lemma_pow2_pos((extra - 66) as nat);
                assert(pow2(66) == 73786976294838206464);
                assert(part >= 73786976294838206464) by (nonlinear_arith)
                    requires
                        part == 73786976294838206464 * pow2((extra - 66) as nat),
                        pow2((extra - 66) as nat) >= 1,
                ;
                assert(2 * FRACTIONS * part >= 2 * FRACTIONS * 73786976294838206464)
                    by (nonlinear_arith)
                    requires
                        part >= 73786976294838206464,
                ;
            }
            lemma_power_bound_at((extra + 1) as nat);
        }
        part = 2 * part;
        extra = extra + 1;
    }
    proof {
        lemma_fundamental_div_mod(number as int, part as int);
        assert(number < 2 * FRACTIONS * part) by (nonlinear_arith)
            requires
                number == part * (number as int / part as int) + number as int % part as int,
                number as int / part as int <= 2 * FRACTIONS - 1,
                (number as int % part as int) < part,
                part >= 1,
        ;
        if extra == 0 && scaled > 0 {
            assert(number >= FRACTIONS);
        }
        lemma_nearest(number as int, extra as nat, scaled as nat);
    }
    let significand = round(number, part);
    proof {
        assert(significand <= 2 * FRACTIONS);
    }
    (extra + scaled) * FRACTIONS + significand as u64
}

proof fn lemma_power_bound_at(count: nat)
    requires
        count <= 67,
    ensures
        pow2(count) <= 147573952589676412928,
{
    lemma2_to64();
    lemma_pow2_adds(count, (67 - count) as nat);
    lemma_pow2_adds(64, 3);
    lemma_pow2_pos((67 - count) as nat);
    assert(pow2(67) == 147573952589676412928);
    assert(pow2(count) <= pow2(count) * pow2((67 - count) as nat)) by (nonlinear_arith)
        requires
            pow2((67 - count) as nat) >= 1,
    ;
}

fn unpack(bits: u64) -> (parts: (u64, u64))
    ensures
        parts.0 == significand(bits),
        parts.1 == scale(bits),
{
    if bits < FRACTIONS {
        (bits, 0)
    } else {
        (FRACTIONS + bits % FRACTIONS, bits / FRACTIONS - 1)
    }
}

/// Half of a number.
pub fn half(bits: u64) -> (result: u64)
    requires
        bits <= LIMIT,
    ensures
        result == half_of(bits),
        result <= bits,
{
    let (number, scaled) = unpack(bits);
    proof {
        lemma_bits(bits);
        lemma2_to64();
    }
    if scaled > 0 {
        let result = pack(number as u128, scaled - 1);
        proof {
            lemma_pow2_unfold(scaled as nat);
            let less = pow2((scaled - 1) as nat) as int;
            assert(value(bits) == 2 * (number * less)) by (nonlinear_arith)
                requires
                    value(bits) == number * pow2(scaled as nat),
                    pow2(scaled as nat) == 2 * less,
            ;
            assert(rounded(value(bits), 2) == number * less);
            lemma_nearest_to_itself(bits);
            lemma_nearest_not_above(number * less, bits);
        }
        result
    } else {
        let result = round(number as u128, 2) as u64;
        proof {
            assert(value(bits) == number) by (nonlinear_arith)
                requires
                    value(bits) == number * pow2(0),
                    pow2(0) == 1,
            ;
            lemma_nearest(result as int, 0, 0);
            assert(rounded(result as int, 1) == result);
            assert(result as int * 1 == result);
        }
        result
    }
}

/// The sum of two numbers.
pub fn sum(left: u64, right: u64) -> (result: u64)
    requires
        left <= LIMIT,
        right <= ONE,
    ensures
        result == sum_of(left, right),
        result <= LIMIT,
{
    let (high, low) = if left > right {
        (left, right)
    } else {
        (right, left)
    };
    let (top, top_scale) = unpack(high);
    let (bottom, bottom_scale) = unpack(low);
    proof {
        lemma_bits(high);
        lemma_bits(low);
        lemma_sum_stays(left, right);
        lemma2_to64();
        lemma_scales_in_order(high, low);
    }
    let gap = top_scale - bottom_scale;
    if gap > 60 {
        proof {
            lemma_too_small(high, low);
        }
        high
    } else {
        let factor = power(gap);
        proof {
            lemma_aligned(high, low, gap as nat);
            lemma_factor(gap as nat);
            assert(top * factor <= 2 * FRACTIONS * 1152921504606846976) by (nonlinear_arith)
                requires
                    top <= 2 * FRACTIONS,
                    factor <= 1152921504606846976,
                    top >= 0,
                    factor >= 0,
            ;
        }
        let number: u128 = top as u128 * factor + bottom as u128;
        pack(number, bottom_scale)
    }
}

/// The difference of two numbers, whichever is larger.
pub fn difference(left: u64, right: u64) -> (result: u64)
    requires
        left <= LIMIT,
        right <= LIMIT,
    ensures
        result == apart(left, right),
        result <= left || result <= right,
{
    let (high, low) = if left > right {
        (left, right)
    } else {
        (right, left)
    };
    let (top, top_scale) = unpack(high);
    let (bottom, bottom_scale) = unpack(low);
    proof {
        lemma_bits(high);
        lemma_bits(low);
        lemma_nearest_to_itself(low);
        law_bits_are_in_order(low, high);
        lemma_nearest_not_above(value(high) - value(low), high);
        lemma2_to64();
        lemma_scales_in_order(high, low);
    }
    let gap = top_scale - bottom_scale;
    if gap > 60 {
        proof {
            lemma_too_small(high, low);
        }
        high
    } else {
        let factor = power(gap);
        proof {
            lemma_aligned(high, low, gap as nat);
            lemma_factor(gap as nat);
            assert(top * factor <= 2 * FRACTIONS * 1152921504606846976) by (nonlinear_arith)
                requires
                    top <= 2 * FRACTIONS,
                    factor <= 1152921504606846976,
                    top >= 0,
                    factor >= 0,
            ;
            lemma_pow2_pos(bottom_scale as nat);
            assert(top * factor >= bottom) by (nonlinear_arith)
                requires
                    (top * factor - bottom) * pow2(bottom_scale as nat) >= 0,
                    pow2(bottom_scale as nat) > 0,
            ;
        }
        let number: u128 = top as u128 * factor - bottom as u128;
        pack(number, bottom_scale)
    }
}

/// How far a number is above another one, or 0.
pub fn excess(left: u64, right: u64) -> (result: u64)
    requires
        left <= LIMIT,
        right <= LIMIT,
    ensures
        result == above(left, right),
        result <= left,
{
    if left > right {
        proof {
            lemma_apart_not_above(left, right);
        }
        difference(left, right)
    } else {
        0
    }
}

proof fn lemma_factor(count: nat)
    requires
        count <= 60,
    ensures
        pow2(count) <= 1152921504606846976,
{
    lemma2_to64();
    lemma_pow2_adds(count, (60 - count) as nat);
    lemma_pow2_pos((60 - count) as nat);
    lemma2_to64_rest();
    assert(pow2(60) == 1152921504606846976);
    assert(pow2(count) <= pow2(count) * pow2((60 - count) as nat)) by (nonlinear_arith)
        requires
            pow2((60 - count) as nat) >= 1,
    ;
}

proof fn lemma_scales_in_order(high: u64, low: u64)
    requires
        low <= high <= LIMIT,
    ensures
        scale(low) <= scale(high) <= 1076,
{
}

/// Two numbers with the scale of the smaller one.
proof fn lemma_aligned(high: u64, low: u64, gap: nat)
    requires
        scale(high) == scale(low) + gap,
    ensures
        value(high) + value(low) == (significand(high) * pow2(gap) + significand(low)) * pow2(
            scale(low),
        ),
        value(high) - value(low) == (significand(high) * pow2(gap) - significand(low)) * pow2(
            scale(low),
        ),
{
    lemma_pow2_adds(gap, scale(low));
    let top = significand(high);
    let bottom = significand(low);
    let factor = pow2(gap) as int;
    let part = pow2(scale(low)) as int;
    assert(top * (factor * part) + bottom * part == (top * factor + bottom) * part)
        by (nonlinear_arith);
    assert(top * (factor * part) - bottom * part == (top * factor - bottom) * part)
        by (nonlinear_arith);
}

/// A number that is too small changes nothing when it is added or taken away.
proof fn lemma_too_small(high: u64, low: u64)
    requires
        scale(high) > scale(low) + 60,
        high <= LIMIT,
    ensures
        nearest(value(high) + value(low)) == high,
        nearest(value(high) - value(low)) == high,
{
    lemma_bits(high);
    lemma_bits(low);
    lemma_nearest_to_itself(low);
    let top = significand(high);
    let scaled = scale(high);
    let part = pow2(scaled) as int;
    let small = value(low);
    lemma_pow2_pos(scaled);
    lemma_pow2_unfold(scaled);
    let less = pow2((scaled - 1) as nat) as int;
    lemma_pow2_pos((scaled - 1) as nat);
    assert(part == 2 * less);
    assert(8 * small < part) by {
        lemma_pow2_adds((scaled - scale(low)) as nat, scale(low));
        lemma_pow2_adds(60, (scaled - scale(low) - 60) as nat);
        lemma_pow2_pos((scaled - scale(low) - 60) as nat);
        lemma_pow2_pos(scale(low));
        lemma2_to64_rest();
        let own = pow2(scale(low)) as int;
        let rest = pow2((scaled - scale(low) - 60) as nat) as int;
        let between = pow2((scaled - scale(low)) as nat) as int;
        assert(between == 1152921504606846976 * rest);
        assert(part == between * own);
        assert(8 * small < part) by (nonlinear_arith)
            requires
                small == significand(low) * own,
                significand(low) < 2 * FRACTIONS,
                part == between * own,
                between == 1152921504606846976 * rest,
                rest >= 1,
                own >= 1,
        ;
    }
    // Adding.
    let units = value(high) + small;
    assert(FRACTIONS * part <= units) by (nonlinear_arith)
        requires
            units == top * part + small,
            top >= FRACTIONS,
            small >= 0,
            part > 0,
    ;
    assert(units < 2 * FRACTIONS * part) by (nonlinear_arith)
        requires
            units == top * part + small,
            top <= 2 * FRACTIONS - 1,
            small < part,
            part > 0,
    ;
    lemma_doublings(units, scaled);
    lemma_fundamental_div_mod_converse(units, part, top, small);
    // Taking away.
    let rest = value(high) - small;
    if small == 0 {
        lemma_nearest_to_itself(high);
    } else if top > FRACTIONS {
        assert(FRACTIONS * part <= rest && rest < 2 * FRACTIONS * part) by (nonlinear_arith)
            requires
                rest == top * part - small,
                FRACTIONS + 1 <= top <= 2 * FRACTIONS - 1,
                0 < small < part,
        ;
        lemma_doublings(rest, scaled);
        assert(rest == (top - 1) * part + (part - small)) by (nonlinear_arith)
            requires
                rest == top * part - small,
        ;
        lemma_fundamental_div_mod_converse(rest, part, top - 1, part - small);
    } else {
        assert(FRACTIONS * less <= rest && rest < 2 * FRACTIONS * less) by (nonlinear_arith)
            requires
                rest == FRACTIONS * part - small,
                part == 2 * less,
                0 < small < less,
        ;
        lemma_doublings(rest, (scaled - 1) as nat);
        assert(rest == (2 * FRACTIONS - 1) * less + (less - small)) by (nonlinear_arith)
            requires
                rest == FRACTIONS * part - small,
                part == 2 * less,
        ;
        lemma_fundamental_div_mod_converse(rest, less, 2 * FRACTIONS - 1, less - small);
        assert((scaled - 1) * FRACTIONS + 2 * FRACTIONS == scaled * FRACTIONS + FRACTIONS)
            by (nonlinear_arith);
    }
}

} // verus!
