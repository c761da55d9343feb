//! Primitive roots: where the powers of one residue run through every
//! nonzero residue of a modulus, every nonzero residue has an inverse and
//! Fermat's little theorem holds.

use vstd::prelude::*;
use vstd::arithmetic::power::pow;
use vstd::arithmetic::power::lemma_pow1;
use vstd::arithmetic::power::lemma1_pow;
use vstd::arithmetic::power::lemma_pow_adds;
use vstd::arithmetic::power::lemma_pow_multiplies;
use vstd::arithmetic::power::lemma_pow_mod_noop;
use vstd::arithmetic::div_mod::lemma_mod_twice;
use vstd::arithmetic::div_mod::lemma_small_mod;
use vstd::arithmetic::div_mod::lemma_mul_mod_noop_general;
use vstd::arithmetic::mul::lemma_mul_is_associative;
use vstd::set_lib::set_int_range;
use vstd::set_lib::lemma_int_range;
use vstd::set_lib::lemma_map_size;
use vstd::set_lib::lemma_subset_equality;
use vstd::relations::injective_on;

verus! {

/// The residue modulo `m` of `b` raised to the power `e`.
pub open spec fn power_residue(b: int, e: nat, m: int) -> int {
    pow(b, e) % m
}

/// Whether `g` is a primitive root modulo `m`: its power `m - 1` is one,
/// and no smaller positive power is.
pub open spec fn is_primitive_root(g: int, m: int) -> bool {
    &&& m > 1
    &&& power_residue(g, (m - 1) as nat, m) == 1
    &&& forall|d: nat| 0 < d < m - 1 ==> #[trigger] power_residue(g, d, m) != 1
}

/// The residue of a power depends on the base's residue only.
pub proof fn lemma_power_residue_of_residue(b: int, e: nat, m: int)
    requires
        m > 0,
    ensures
        power_residue(b % m, e, m) == power_residue(b, e, m),
{
    lemma_pow_mod_noop(b, e, m);
}

/// The first power is the residue of the base.
pub proof fn lemma_power_residue_first(b: int, m: int)
    requires
        m > 0,
    ensures
        power_residue(b, 1, m) == b % m,
{
    lemma_pow1(b);
}

/// Power residues multiply as the exponents add.
pub proof fn lemma_power_residue_adds(b: int, e1: nat, e2: nat, m: int)
    requires
        m > 0,
    ensures
        power_residue(b, e1 + e2, m) == (power_residue(b, e1, m) * power_residue(b, e2, m)) % m,
{
    lemma_pow_adds(b, e1, e2);
    lemma_mul_mod_noop_general(pow(b, e1), pow(b, e2), m);
}

/// A power residue of a power residue.
pub proof fn lemma_power_residue_multiplies(b: int, e1: nat, e2: nat, m: int)
    requires
        m > 0,
    ensures
        0 <= e1 * e2,
        power_residue(power_residue(b, e1, m), e2, m) == power_residue(b, (e1 * e2) as nat, m),
{
    lemma_pow_multiplies(b, e1, e2);
    lemma_pow_mod_noop(pow(b, e1), e2, m);
}

/// Where the power `d` of `g` is one, so is the power of each multiple of
/// `d`.
pub proof fn lemma_unit_power_multiple(g: int, m: int, d: nat, k: nat)
    requires
        m > 1,
        power_residue(g, d, m) == 1,
    ensures
        0 <= d * k,
        power_residue(g, (d * k) as nat, m) == 1,
{
    lemma_power_residue_multiplies(g, d, k, m);
    lemma1_pow(k);
    lemma_small_mod(1, m as nat);
}

/// Where the powers `x` and `x + y` of `g` are one, so is the power `y`.
pub proof fn lemma_unit_power_difference(g: int, m: int, x: nat, y: nat)
    requires
        m > 1,
        power_residue(g, x, m) == 1,
        power_residue(g, x + y, m) == 1,
    ensures
        power_residue(g, y, m) == 1,
{
    lemma_power_residue_adds(g, x, y, m);
    lemma_mod_twice(pow(g, y), m);
}

/// Where the powers `n` and `d` of `g` are one, with `0 < d`, there is a
/// divisor of `n`, at most `d`, at which the power of `g` is one.
pub proof fn lemma_order_descent(g: int, m: int, n: nat, d: nat) -> (r: nat)
    requires
        m > 1,
        power_residue(g, n, m) == 1,
        0 < d,
        power_residue(g, d, m) == 1,
    ensures
        0 < r <= d,
        n % r == 0,
        power_residue(g, r, m) == 1,
    decreases d,
{
    let quotient: nat = n / d;
    let rest: nat = n % d;
    lemma_unit_power_multiple(g, m, d, quotient);
    lemma_unit_power_difference(g, m, (d * quotient) as nat, rest);
    if rest == 0 {
        d
    } else {
        lemma_order_descent(g, m, n, rest)
    }
}

/// The powers of a primitive root below `m - 1` are not zero.
pub proof fn lemma_powers_not_zero(g: int, m: int, e: nat)
    requires
        is_primitive_root(g, m),
        e < m - 1,
    ensures
        power_residue(g, e, m) != 0,
{
    let rest: nat = (m - 1 - e) as nat;
    lemma_power_residue_adds(g, e, rest, m);
    if power_residue(g, e, m) == 0 {
        lemma_small_mod(0, m as nat);
    }
}

/// The powers of a primitive root below `m - 1` differ from each other.
pub proof fn lemma_powers_distinct(g: int, m: int, i: nat, j: nat)
    requires
        is_primitive_root(g, m),
        i < j < m - 1,
    ensures
        power_residue(g, i, m) != power_residue(g, j, m),
{
    let u = power_residue(g, i, m);
    let gap: nat = (j - i) as nat;
    let v = power_residue(g, gap, m);
    let rest: nat = (m - 1 - i) as nat;
    let w = power_residue(g, rest, m);
    if u == power_residue(g, j, m) {
        // u = u * v and w * u = 1, so v = w * u * v = w * u = 1
        lemma_power_residue_adds(g, i, gap, m);
        lemma_power_residue_adds(g, rest, i, m);
        lemma_mul_mod_noop_general(w, u * v, m);
        lemma_mul_is_associative(w, u, v);
        lemma_mul_mod_noop_general(w * u, v, m);
        lemma_small_mod(v as nat, m as nat);
    }
}

/// Every nonzero residue is a power of a primitive root.
pub proof fn lemma_powers_cover(g: int, m: int, a: int) -> (e: nat)
    requires
        is_primitive_root(g, m),
        0 < a < m,
    ensures
        e < m - 1,
        power_residue(g, e, m) == a,
{
    let exponents = set_int_range(0, m - 1);
    let residues = set_int_range(1, m);
    let f = |e: int| power_residue(g, e as nat, m);
    let powers = exponents.map(f);
    lemma_int_range(0, m - 1);
    lemma_int_range(1, m);
    assert(injective_on(f, exponents)) by {
        assert forall|x: int, y: int|
            exponents.contains(x) && exponents.contains(y) && #[trigger] f(x) == #[trigger] f(
                y,
            ) implies x == y by {
            if x < y {
                lemma_powers_distinct(g, m, x as nat, y as nat);
            } else if y < x {
                lemma_powers_distinct(g, m, y as nat, x as nat);
            }
        }
    }
    lemma_map_size(exponents, powers, f);
    assert(powers.subset_of(residues)) by {
        assert forall|r: int| powers.contains(r) implies residues.contains(r) by {
            let x = choose|x: int| exponents.contains(x) && r == f(x);
            lemma_powers_not_zero(g, m, x as nat);
        }
    }
    lemma_subset_equality(powers, residues);
    assert(powers.contains(a));
    let x = choose|x: int| exponents.contains(x) && a == f(x);
    x as nat
}

/// Fermat's little theorem for a modulus with a primitive root: the power
/// `m - 1` of a residue other than zero is one.
pub proof fn lemma_fermat_little(g: int, m: int, a: int)
    requires
        is_primitive_root(g, m),
        a % m != 0,
    ensures
        power_residue(a, (m - 1) as nat, m) == 1,
{
    let n: nat = (m - 1) as nat;
    let e = lemma_powers_cover(g, m, a % m);
    // a^n = (g^e)^n = (g^n)^e = 1
    lemma_power_residue_of_residue(a, n, m);
    lemma_power_residue_multiplies(g, e, n, m);
    lemma_unit_power_multiple(g, m, n, e);
}

/// Below a modulus with a primitive root, the power `m - 2` of a residue
/// other than zero is its inverse.
pub proof fn lemma_inverse_by_power(g: int, m: int, a: int)
    requires
        is_primitive_root(g, m),
        a % m != 0,
    ensures
        (a * power_residue(a, (m - 2) as nat, m)) % m == 1,
{
    let e: nat = (m - 2) as nat;
    let u = power_residue(a, e, m);
    lemma_fermat_little(g, m, a);
    lemma_power_residue_adds(a, 1, e, m);
    lemma_power_residue_first(a, m);
    lemma_mul_mod_noop_general(a, u, m);
}

/// A modulus with a primitive root has no zero divisors: where it divides
/// a product, it divides a factor.
pub proof fn lemma_no_zero_divisors(g: int, m: int, x: int, y: int)
    requires
        is_primitive_root(g, m),
        (x * y) % m == 0,
    ensures
        x % m == 0 || y % m == 0,
{
    if x % m != 0 {
        let u = power_residue(x, (m - 2) as nat, m);
        lemma_inverse_by_power(g, m, x);
        // y = (u * x) * y = u * (x * y) = 0
        lemma_mul_mod_noop_general(u * x, y, m);
        lemma_mul_is_associative(u, x, y);
        lemma_mul_mod_noop_general(u, x * y, m);
        lemma_small_mod(0, m as nat);
    }
}

/// One squaring in a chain of powers: where the power `e` of `g` is `x`,
/// the power `2 * e` is the square of `x`.
pub proof fn lemma_power_residue_squared(g: int, m: int, e: nat, x: int)
    requires
        m > 0,
        power_residue(g, e, m) == x,
    ensures
        power_residue(g, 2 * e, m) == (x * x) % m,
{
    lemma_power_residue_adds(g, e, e, m);
}

/// One product in a chain of powers: where the powers `e1` and `e2` of `g`
/// are `x1` and `x2`, the power `e1 + e2` is their product.
pub proof fn lemma_power_residue_times(g: int, m: int, e1: nat, x1: int, e2: nat, x2: int)
    requires
        m > 0,
        power_residue(g, e1, m) == x1,
        power_residue(g, e2, m) == x2,
    ensures
        power_residue(g, e1 + e2, m) == (x1 * x2) % m,
{
    lemma_power_residue_adds(g, e1, e2, m);
}

} // verus!
