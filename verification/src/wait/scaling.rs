//! Exact scaling of a whole number by a power of a ratio.
//!
//! An exponential backoff multiplies its first interval by the same ratio
//! once for each further attempt. The product is computed here without any
//! rounding between the steps: only the final quotient is rounded down. The
//! intermediate powers do not fit a machine word, so they are kept as
//! numbers of arbitrary size.

use vstd::prelude::*;
use vstd::arithmetic::div_mod::{
    lemma_basic_div,
    lemma_div_is_ordered,
    lemma_div_multiples_vanish,
    lemma_fundamental_div_mod_converse,
};

verus! {

/// `base` to the power of `exponent`.
pub open spec fn power(base: nat, exponent: nat) -> nat
    decreases exponent,
{
    if exponent == 0 {
        1
    } else {
        base * power(base, (exponent - 1) as nat)
    }
}

/// `initial` times the ratio of `thousandths` thousandths to the power of
/// `steps`, rounded down to a whole number.
pub open spec fn scaled(initial: nat, thousandths: nat, steps: nat) -> nat {
    (initial * power(thousandths, steps)) / power(1000, steps)
}

/// The smaller of two numbers.
pub open spec fn at_most(value: nat, cap: nat) -> nat {
    if value <= cap {
        value
    } else {
        cap
    }
}

/// The weight of one limb: two to the power of 64.
spec fn limb_weight() -> nat {
    0x1_0000_0000_0000_0000
}

spec fn limb(limbs: Seq<u64>, index: int) -> nat {
    if 0 <= index < limbs.len() {
        limbs[index] as nat
    } else {
        0
    }
}

/// The number that the lowest `count` limbs stand for, least significant
/// limb first.
spec fn value_upto(limbs: Seq<u64>, count: nat) -> nat
    decreases count,
{
    if count == 0 {
        0
    } else {
        value_upto(limbs, (count - 1) as nat) + limb(limbs, count - 1) * power(
            limb_weight(),
            (count - 1) as nat,
        )
    }
}

proof fn lemma_power_positive(base: nat, exponent: nat)
    requires
        base > 0,
    ensures
        power(base, exponent) > 0,
    decreases exponent,
{
    if exponent > 0 {
        lemma_power_positive(base, (exponent - 1) as nat);
        assert(base * power(base, (exponent - 1) as nat) > 0) by (nonlinear_arith)
            requires
                base > 0,
                power(base, (exponent - 1) as nat) > 0,
        ;
    }
}

proof fn lemma_value_upto_agree(a: Seq<u64>, b: Seq<u64>, count: nat)
    requires
        forall|k: int| 0 <= k < count ==> limb(a, k) == limb(b, k),
    ensures
        value_upto(a, count) == value_upto(b, count),
    decreases count,
{
    if count > 0 {
        lemma_value_upto_agree(a, b, (count - 1) as nat);
    }
}

proof fn lemma_value_upto_padding(a: Seq<u64>, count: nat)
    requires
        count >= a.len(),
    ensures
        value_upto(a, count) == value_upto(a, a.len()),
    decreases count,
{
    if count > a.len() {
        lemma_value_upto_padding(a, (count - 1) as nat);
        assert(limb(a, count - 1) == 0);
        assert(0 * power(limb_weight(), (count - 1) as nat) == 0) by (nonlinear_arith);
    }
}

proof fn lemma_value_upto_bound(a: Seq<u64>, count: nat)
    ensures
        value_upto(a, count) < power(limb_weight(), count),
    decreases count,
{
    if count > 0 {
        lemma_value_upto_bound(a, (count - 1) as nat);
        let low = value_upto(a, (count - 1) as nat);
        let digit = limb(a, count - 1);
        let weight = power(limb_weight(), (count - 1) as nat);
        assert(low + digit * weight < limb_weight() * weight) by (nonlinear_arith)
            requires
                low < weight,
                digit < limb_weight(),
        ;
    }
}

/// A natural number of arbitrary size.
struct BigNat {
    limbs: Vec<u64>,
}

impl BigNat {
    spec fn value(&self) -> nat {
        value_upto(self.limbs@, self.limbs@.len())
    }

    fn from_u128(number: u128) -> (big: BigNat)
        ensures
            big.value() == number,
    {
        let low = (number % 0x1_0000_0000_0000_0000u128) as u64;
        let high = (number / 0x1_0000_0000_0000_0000u128) as u64;
        let mut limbs: Vec<u64> = Vec::new();
        limbs.push(low);
        limbs.push(high);
        proof {
            assert(limbs@.len() == 2 && limbs@[0] == low && limbs@[1] == high);
            assert(power(limb_weight(), 0) == 1);
            assert(power(limb_weight(), 1) == limb_weight() * power(limb_weight(), 0));
            assert(value_upto(limbs@, 0) == 0);
            assert(value_upto(limbs@, 1) == value_upto(limbs@, 0) + limb(limbs@, 0) * power(
                limb_weight(),
                0,
            ));
            assert(value_upto(limbs@, 2) == value_upto(limbs@, 1) + limb(limbs@, 1) * power(
                limb_weight(),
                1,
            ));
            assert(number == low + high * 0x1_0000_0000_0000_0000);
        }
        BigNat { limbs }
    }

    fn times(&self, factor: u64) -> (product: BigNat)
        ensures
            product.value() == self.value() * factor,
    {
        let mut limbs: Vec<u64> = Vec::new();
        let mut carry: u64 = 0;
        let mut i: usize = 0;
        proof {
            assert(value_upto(self.limbs@, 0) * factor == 0) by (nonlinear_arith)
                requires
                    value_upto(self.limbs@, 0) == 0,
            ;
            assert(0 * power(limb_weight(), 0) == 0) by (nonlinear_arith);
        }
        while i < self.limbs.len()
            invariant
                i <= self.limbs.len(),
                limbs@.len() == i,
                value_upto(limbs@, i as nat) + carry * power(limb_weight(), i as nat) == value_upto(
                    self.limbs@,
                    i as nat,
                ) * factor,
            decreases self.limbs.len() - i,
        {
            let digit = self.limbs[i];
            assert(digit as u128 * factor as u128 + carry as u128 <= 0xFFFF_FFFF_FFFF_FFFF_0000_0000_0000_0000u128) by (nonlinear_arith)
                requires
                    digit <= 0xFFFF_FFFF_FFFF_FFFFu64,
                    factor <= 0xFFFF_FFFF_FFFF_FFFFu64,
                    carry <= 0xFFFF_FFFF_FFFF_FFFFu64,
            ;
            let total: u128 = digit as u128 * factor as u128 + carry as u128;
            let low = (total % 0x1_0000_0000_0000_0000u128) as u64;
            let high = (total / 0x1_0000_0000_0000_0000u128) as u64;
            let ghost before = limbs@;
            limbs.push(low);
            proof {
                lemma_value_upto_agree(before, limbs@, i as nat);
                let weight = power(limb_weight(), i as nat);
                let mine = value_upto(before, i as nat);
                let theirs = value_upto(self.limbs@, i as nat);
                assert(limb(limbs@, i as int) == low);
                assert(limb(self.limbs@, i as int) == digit);
                assert(power(limb_weight(), (i + 1) as nat) == limb_weight() * weight);
                assert(mine + low * weight + high * (limb_weight() * weight) == (theirs + digit * weight)
                    * factor) by (nonlinear_arith)
                    requires
                        mine + carry * weight == theirs * factor,
                        low + high * limb_weight() == digit * factor + carry,
                ;
            }
            carry = high;
            i += 1;
        }
        let ghost before = limbs@;
        limbs.push(carry);
        proof {
            lemma_value_upto_agree(before, limbs@, i as nat);
            assert(limb(limbs@, i as int) == carry);
        }
        BigNat { limbs }
    }

    fn limb_at(&self, index: usize) -> (digit: u64)
        ensures
            digit == limb(self.limbs@, index as int),
    {
        if index < self.limbs.len() {
            self.limbs[index]
        } else {
            0
        }
    }

    fn at_least(&self, other: &BigNat) -> (result: bool)
        ensures
            result == (self.value() >= other.value()),
    {
        let count = if self.limbs.len() > other.limbs.len() {
            self.limbs.len()
        } else {
            other.limbs.len()
        };
        proof {
            lemma_value_upto_padding(self.limbs@, count as nat);
            lemma_value_upto_padding(other.limbs@, count as nat);
        }
        let mut i: usize = count;
        while i > 0
            invariant
                i <= count,
                self.value() == value_upto(self.limbs@, count as nat),
                other.value() == value_upto(other.limbs@, count as nat),
                value_upto(self.limbs@, count as nat) - value_upto(self.limbs@, i as nat)
                    == value_upto(other.limbs@, count as nat) - value_upto(
                    other.limbs@,
                    i as nat,
                ),
            decreases i,
        {
            let mine = self.limb_at(i - 1);
            let theirs = other.limb_at(i - 1);
            proof {
                lemma_value_upto_bound(self.limbs@, (i - 1) as nat);
                lemma_value_upto_bound(other.limbs@, (i - 1) as nat);
            }
            let ghost weight = power(limb_weight(), (i - 1) as nat);
            let ghost low_mine = value_upto(self.limbs@, (i - 1) as nat);
            let ghost low_theirs = value_upto(other.limbs@, (i - 1) as nat);
            if mine > theirs {
                assert(low_mine + mine * weight > low_theirs + theirs * weight) by (nonlinear_arith)
                    requires
                        mine > theirs,
                        low_theirs < weight,
                        low_mine >= 0,
                ;
                return true;
            }
            if mine < theirs {
                assert(low_mine + mine * weight < low_theirs + theirs * weight) by (nonlinear_arith)
                    requires
                        mine < theirs,
                        low_mine < weight,
                        low_theirs >= 0,
                ;
                return false;
            }
            i -= 1;
        }
        true
    }
}

proof fn lemma_power_step(base: nat, exponent: nat)
    ensures
        power(base, exponent + 1) == base * power(base, exponent),
{
}

proof fn lemma_scaled_by_one(initial: nat, steps: nat)
    ensures
        scaled(initial, 1000, steps) == initial,
{
    lemma_power_positive(1000, steps);
    let unit = power(1000, steps);
    assert(initial * unit == unit * initial) by (nonlinear_arith);
    lemma_div_multiples_vanish(initial as int, unit as int);
}

proof fn lemma_scaled_of_nothing(initial: nat, thousandths: nat, steps: nat)
    requires
        initial == 0 || (thousandths == 0 && steps > 0),
    ensures
        scaled(initial, thousandths, steps) == 0,
{
    lemma_power_positive(1000, steps);
    if initial == 0 {
        assert(initial * power(thousandths, steps) == 0) by (nonlinear_arith)
            requires
                initial == 0,
        ;
    } else {
        assert(power(thousandths, steps) == 0) by (nonlinear_arith)
            requires
                power(thousandths, steps) == thousandths * power(
                    thousandths,
                    (steps - 1) as nat,
                ),
                thousandths == 0,
        ;
        assert(initial * power(thousandths, steps) == 0) by (nonlinear_arith)
            requires
                power(thousandths, steps) == 0,
        ;
    }
    lemma_basic_div(0, power(1000, steps) as int);
}

/// Once a growing product has reached `bound` it stays there.
proof fn lemma_growth_keeps_bound(
    initial: nat,
    thousandths: nat,
    from: nat,
    to: nat,
    bound: nat,
)
    requires
        thousandths >= 1000,
        from <= to,
        initial * power(thousandths, from) >= bound * power(1000, from),
    ensures
        initial * power(thousandths, to) >= bound * power(1000, to),
        scaled(initial, thousandths, to) >= bound,
    decreases to - from,
{
    if from < to {
        lemma_growth_keeps_bound(initial, thousandths, from, (to - 1) as nat, bound);
        let grown = power(thousandths, (to - 1) as nat);
        let unit = power(1000, (to - 1) as nat);
        assert(initial * (thousandths * grown) >= bound * (1000 * unit)) by (nonlinear_arith)
            requires
                initial * grown >= bound * unit,
                thousandths >= 1000,
        ;
    }
    lemma_power_positive(1000, to);
    let unit = power(1000, to);
    assert(bound * unit == unit * bound) by (nonlinear_arith);
    lemma_div_multiples_vanish(bound as int, unit as int);
    lemma_div_is_ordered(
        (bound * unit) as int,
        (initial * power(thousandths, to)) as int,
        unit as int,
    );
}

/// Once a shrinking product has fallen below one it stays there.
proof fn lemma_decay_stays_zero(initial: nat, thousandths: nat, from: nat, to: nat)
    requires
        thousandths <= 1000,
        from <= to,
        initial * power(thousandths, from) < power(1000, from),
    ensures
        initial * power(thousandths, to) < power(1000, to),
        scaled(initial, thousandths, to) == 0,
    decreases to - from,
{
    if from < to {
        lemma_decay_stays_zero(initial, thousandths, from, (to - 1) as nat);
        let shrunk = power(thousandths, (to - 1) as nat);
        let unit = power(1000, (to - 1) as nat);
        assert(initial * (thousandths * shrunk) < 1000 * unit) by (nonlinear_arith)
            requires
                initial * shrunk < unit,
                thousandths <= 1000,
        ;
    }
    lemma_basic_div((initial * power(thousandths, to)) as int, power(1000, to) as int);
}

/// A product that does not grow never exceeds its first factor.
proof fn lemma_no_growth(initial: nat, thousandths: nat, steps: nat)
    requires
        thousandths <= 1000,
    ensures
        initial * power(thousandths, steps) <= initial * power(1000, steps),
    decreases steps,
{
    if steps > 0 {
        lemma_no_growth(initial, thousandths, (steps - 1) as nat);
        let shrunk = power(thousandths, (steps - 1) as nat);
        let unit = power(1000, (steps - 1) as nat);
        assert(initial * (thousandths * shrunk) <= initial * (1000 * unit)) by (nonlinear_arith)
            requires
                initial * shrunk <= initial * unit,
                thousandths <= 1000,
        ;
    }
}

/// The quotient of two numbers, rounded down, where it is known to be at
/// most `bound`.
fn quotient(numerator: &BigNat, denominator: &BigNat, bound: u64) -> (result: u64)
    requires
        denominator.value() > 0,
        numerator.value() < (bound + 1) * denominator.value(),
    ensures
        result == numerator.value() / denominator.value(),
{
    let mut low: u64 = 0;
    let mut high: u128 = bound as u128 + 1;
    proof {
        assert(0 * denominator.value() == 0) by (nonlinear_arith);
    }
    while high - low as u128 > 1
        invariant
            low < high <= bound + 1,
            low * denominator.value() <= numerator.value() < high * denominator.value(),
        decreases high - low,
    {
        let middle: u128 = low as u128 + (high - low as u128) / 2;
        let probe = middle as u64;
        let product = denominator.times(probe);
        proof {
            assert(denominator.value() * probe == probe * denominator.value()) by (nonlinear_arith);
        }
        if numerator.at_least(&product) {
            low = probe;
        } else {
            high = middle;
        }
    }
    proof {
        let rest = numerator.value() - low * denominator.value();
        assert(rest < denominator.value()) by (nonlinear_arith)
            requires
                numerator.value() < (low + 1) * denominator.value(),
                rest == numerator.value() - low * denominator.value(),
        ;
        lemma_fundamental_div_mod_converse(
            numerator.value() as int,
            denominator.value() as int,
            low as int,
            rest as int,
        );
    }
    low
}

/// `initial` times the ratio of `thousandths` thousandths to the power of
/// `steps`, rounded down, or `cap` where that is smaller.
pub fn scale_capped(initial: u64, thousandths: u32, steps: u32, cap: u64) -> (result: u64)
    ensures
        result == at_most(scaled(initial as nat, thousandths as nat, steps as nat), cap as nat),
{
    if steps == 0 || thousandths == 1000 {
        proof {
            lemma_scaled_by_one(initial as nat, steps as nat);
            assert(power(thousandths as nat, 0) == 1 && power(1000, 0) == 1);
            assert(initial * 1 / 1 == initial);
        }
        return if initial <= cap {
            initial
        } else {
            cap
        };
    }
    if initial == 0 || thousandths == 0 {
        proof {
            lemma_scaled_of_nothing(initial as nat, thousandths as nat, steps as nat);
        }
        return 0;
    }
    let growing = thousandths > 1000;
    let mut numerator = BigNat::from_u128(initial as u128);
    let mut denominator = BigNat::from_u128(1);
    let mut limit = BigNat::from_u128(cap as u128 + 1);
    let mut done: u32 = 0;
    proof {
        assert(initial * power(thousandths as nat, 0) == initial) by (nonlinear_arith)
            requires
                power(thousandths as nat, 0) == 1,
        ;
        assert((cap + 1) * power(1000, 0) == cap + 1) by (nonlinear_arith)
            requires
                power(1000, 0) == 1,
        ;
    }
    while done < steps
        invariant
            done <= steps,
            growing == (thousandths > 1000),
            numerator.value() == initial * power(thousandths as nat, done as nat),
            denominator.value() == power(1000, done as nat),
            limit.value() == (cap + 1) * power(1000, done as nat),
        decreases steps - done,
    {
        if growing {
            if numerator.at_least(&limit) {
                proof {
                    lemma_growth_keeps_bound(
                        initial as nat,
                        thousandths as nat,
                        done as nat,
                        steps as nat,
                        (cap + 1) as nat,
                    );
                }
                return cap;
            }
        } else {
            if !numerator.at_least(&denominator) {
                proof {
                    lemma_decay_stays_zero(
                        initial as nat,
                        thousandths as nat,
                        done as nat,
                        steps as nat,
                    );
                }
                return 0;
            }
        }
        let ghost grown = power(thousandths as nat, done as nat);
        let ghost unit = power(1000, done as nat);
        numerator = numerator.times(thousandths as u64);
        denominator = denominator.times(1000);
        limit = limit.times(1000);
        proof {
            lemma_power_step(thousandths as nat, done as nat);
            lemma_power_step(1000, done as nat);
            assert(initial * grown * thousandths == initial * (thousandths * grown)) by (nonlinear_arith);
            assert((cap + 1) * unit * 1000 == (cap + 1) * (1000 * unit)) by (nonlinear_arith);
        }
        done += 1;
    }
    if growing && numerator.at_least(&limit) {
        proof {
            lemma_growth_keeps_bound(
                initial as nat,
                thousandths as nat,
                steps as nat,
                steps as nat,
                (cap + 1) as nat,
            );
        }
        return cap;
    }
    proof {
        lemma_power_positive(1000, steps as nat);
        if !growing {
            lemma_no_growth(initial as nat, thousandths as nat, steps as nat);
            assert(initial * power(1000, steps as nat) < (initial + 1) * power(1000, steps as nat))
                by (nonlinear_arith)
                requires
                    power(1000, steps as nat) > 0,
            ;
        }
    }
    let bound = if growing {
        cap
    } else {
        initial
    };
    let whole = quotient(&numerator, &denominator, bound);
    if whole <= cap {
        whole
    } else {
        cap
    }
}

proof fn lemma_growth_is_at_least_linear(thousandths: nat, steps: nat)
    requires
        thousandths > 1000,
    ensures
        power(thousandths, steps) * 1000 >= power(1000, steps) * (1000 + steps),
    decreases steps,
{
    if steps > 0 {
        lemma_growth_is_at_least_linear(thousandths, (steps - 1) as nat);
        let grown = power(thousandths, (steps - 1) as nat);
        let unit = power(1000, (steps - 1) as nat);
        assert((thousandths * grown) * 1000 >= (1000 * unit) * (1000 + steps)) by (nonlinear_arith)
            requires
                grown * 1000 >= unit * (1000 + (steps - 1)),
                thousandths >= 1001,
                steps >= 1,
                unit >= 0,
        ;
    }
}

/// A whole number of at least one that is scaled by a ratio above one
/// exceeds every bound: after a thousand steps for each unit of the bound,
/// at the latest.
pub proof fn lemma_scaled_exceeds(initial: nat, thousandths: nat, steps: nat, cap: nat)
    requires
        initial >= 1,
        thousandths > 1000,
        steps >= 1000 * cap,
    ensures
        scaled(initial, thousandths, steps) > cap,
        at_most(scaled(initial, thousandths, steps), cap) == cap,
{
    lemma_growth_is_at_least_linear(thousandths, steps);
    lemma_power_positive(1000, steps);
    let grown = power(thousandths, steps);
    let unit = power(1000, steps);
    assert(initial * grown >= (cap + 1) * unit) by (nonlinear_arith)
        requires
            grown * 1000 >= unit * (1000 + steps),
            steps >= 1000 * cap,
            initial >= 1,
            unit > 0,
    ;
    assert(initial * power(thousandths, steps) >= (cap + 1) * power(1000, steps));
    lemma_growth_keeps_bound(initial, thousandths, steps, steps, cap + 1);
}

} // verus!
