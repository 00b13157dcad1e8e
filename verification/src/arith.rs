//! Integer arithmetic of the evaluator: 32-bit results, with overflow and
//! division by zero reported instead of computed.

use vstd::prelude::*;

verus! {

/// Whether an integer fits in 32 bits.
pub open spec fn fits(x: int) -> bool {
    i32::MIN <= x <= i32::MAX
}

/// The absolute value.
pub open spec fn magnitude(x: int) -> int {
    if x < 0 {
        -x
    } else {
        x
    }
}

/// The quotient rounded toward zero.
pub open spec fn trunc_div(a: int, b: int) -> int
    recommends
        b != 0,
{
    if (a >= 0) == (b > 0) {
        magnitude(a) / magnitude(b)
    } else {
        -(magnitude(a) / magnitude(b))
    }
}

/// The remainder of the division rounded toward zero: it has the sign of `a`.
pub open spec fn trunc_rem(a: int, b: int) -> int
    recommends
        b != 0,
{
    if a >= 0 {
        a % magnitude(b)
    } else {
        -((-a) % magnitude(b))
    }
}

/// `a` to the power `n`.
pub open spec fn power(a: int, n: nat) -> int
    decreases n,
{
    if n == 0 {
        1
    } else {
        a * power(a, (n - 1) as nat)
    }
}

/// The product of the integers from 1 to `n`; 1 where `n` is not positive.
pub open spec fn factorial(n: int) -> int
    decreases n,
{
    if n <= 0 {
        1
    } else {
        n * factorial(n - 1)
    }
}

/// The greatest common divisor as Euclid's algorithm gives it, with the remainder that has
/// the sign of the dividend: the result may be negative.
pub open spec fn gcd_of(a: int, b: int) -> int
    decreases magnitude(b),
{
    if b == 0 {
        a
    } else {
        proof {
            vstd::arithmetic::div_mod::lemma_mod_pos_bound(magnitude(a), magnitude(b));
        }
        gcd_of(b, trunc_rem(a, b))
    }
}

/// The absolute value.
pub fn abs_u64(a: i64) -> (m: u64)
    requires
        a > i64::MIN,
    ensures
        m == magnitude(a as int),
{
    if a < 0 {
        (-a) as u64
    } else {
        a as u64
    }
}

/// The quotient rounded toward zero.
pub fn div_trunc(a: i64, b: i64) -> (q: i64)
    requires
        b != 0,
        a > i64::MIN,
        b > i64::MIN,
    ensures
        q == trunc_div(a as int, b as int),
{
    proof {
        vstd::arithmetic::div_mod::lemma_div_pos_is_pos(magnitude(a as int), magnitude(b as int));
        vstd::arithmetic::div_mod::lemma_div_is_ordered_by_denominator(
            magnitude(a as int),
            1,
            magnitude(b as int),
        );
    }
    let q = (abs_u64(a) / abs_u64(b)) as i64;
    if (a >= 0) == (b > 0) {
        q
    } else {
        -q
    }
}

/// The product of two 32-bit integers.
pub fn mul_wide(a: i32, b: i32) -> (x: i64)
    ensures
        x == a * b,
        -4611686018427387904 <= x <= 4611686018427387904,
{
    assert(-4611686018427387904 <= a * b <= 4611686018427387904) by (nonlinear_arith)
        requires
            -2147483648 <= a <= 2147483647,
            -2147483648 <= b <= 2147483647,
    ;
    (a as i64) * (b as i64)
}

/// The remainder of the division rounded toward zero.
pub fn rem_trunc(a: i32, b: i32) -> (r: i32)
    requires
        b != 0,
    ensures
        r == trunc_rem(a as int, b as int),
{
    proof {
        vstd::arithmetic::div_mod::lemma_mod_pos_bound(magnitude(a as int), magnitude(b as int));
    }
    let r = (abs_u64(a as i64) % abs_u64(b as i64)) as i64;
    if a >= 0 {
        r as i32
    } else {
        (-r) as i32
    }
}

/// Magnitudes of powers grow strictly with the exponent, for a base other than 0, 1 and -1.
pub proof fn lemma_power_grows(a: int, k: nat, n: nat)
    requires
        magnitude(a) >= 2,
        k <= n,
    ensures
        1 <= magnitude(power(a, k)) <= magnitude(power(a, n)),
        k < n ==> magnitude(power(a, k)) < magnitude(power(a, n)),
    decreases n,
{
    if k < n {
        let m = magnitude(power(a, (n - 1) as nat));
        lemma_power_grows(a, k, (n - 1) as nat);
        lemma_magnitude_product(a, power(a, (n - 1) as nat));
        assert(magnitude(a) * m > m) by (nonlinear_arith)
            requires
                magnitude(a) >= 2,
                m >= 1,
        ;
    } else if n > 0 {
        let m = magnitude(power(a, (n - 1) as nat));
        lemma_power_grows(a, (n - 1) as nat, (n - 1) as nat);
        lemma_magnitude_product(a, power(a, (n - 1) as nat));
        assert(magnitude(a) * m >= 1) by (nonlinear_arith)
            requires
                magnitude(a) >= 2,
                m >= 1,
        ;
    }
}

/// The magnitude of a product is the product of the magnitudes.
pub proof fn lemma_magnitude_product(a: int, b: int)
    ensures
        magnitude(a * b) == magnitude(a) * magnitude(b),
{
    assert(magnitude(a * b) == magnitude(a) * magnitude(b)) by (nonlinear_arith);
}

/// Powers of 0, 1 and -1.
pub proof fn lemma_power_unit(n: nat)
    ensures
        power(0, n) == if n == 0 {
            1int
        } else {
            0int
        },
        power(1, n) == 1,
        power(-1, n) == if n % 2 == 0 {
            1int
        } else {
            -1int
        },
    decreases n,
{
    if n > 0 {
        lemma_power_unit((n - 1) as nat);
    }
}

/// `a` to the power `n`, if it fits in 32 bits.
pub fn pow_checked(a: i32, n: u32) -> (r: Option<i32>)
    ensures
        match r {
            Some(x) => x == power(a as int, n as nat),
            None => !fits(power(a as int, n as nat)),
        },
{
    proof {
        lemma_power_unit(n as nat);
    }
    if a == 0 {
        return Some(if n == 0 {
            1
        } else {
            0
        });
    }
    if a == 1 {
        return Some(1);
    }
    if a == -1 {
        return Some(if n % 2 == 0 {
            1
        } else {
            -1
        });
    }
    let mut acc: i64 = 1;
    let mut i: u32 = 0;
    while i < n
        invariant
            i <= n,
            magnitude(a as int) >= 2,
            acc == power(a as int, i as nat),
            fits(acc as int),
        decreases n - i,
    {
        assert(-4611686018427387904 <= acc * a <= 4611686018427387904) by (nonlinear_arith)
            requires
                -2147483648 <= acc <= 2147483647,
                -2147483648 <= a <= 2147483647,
        ;
        let next = acc * (a as i64);
        assert(next == power(a as int, (i + 1) as nat)) by {
            assert(a * power(a as int, i as nat) == power(a as int, i as nat) * a)
                by (nonlinear_arith);
        }
        if next > 2147483647 || next < -2147483648 {
            proof {
                lemma_power_grows(a as int, (i + 1) as nat, n as nat);
            }
            return None;
        }
        acc = next;
        i += 1;
    }
    Some(acc as i32)
}

/// Factorials are positive and grow with the argument.
pub proof fn lemma_factorial_grows(k: int, n: int)
    requires
        k <= n,
    ensures
        1 <= factorial(k) <= factorial(n),
    decreases n,
{
    if n <= 0 {
    } else if k == n {
        lemma_factorial_grows(k - 1, n - 1);
        assert(n * factorial(n - 1) >= 1) by (nonlinear_arith)
            requires
                n >= 1,
                factorial(n - 1) >= 1,
        ;
    } else {
        lemma_factorial_grows(k, n - 1);
        assert(n * factorial(n - 1) >= factorial(n - 1)) by (nonlinear_arith)
            requires
                n >= 1,
                factorial(n - 1) >= 1,
        ;
    }
}

/// The factorial of `n`, if it fits in 32 bits.
pub fn factorial_checked(n: i32) -> (r: Option<i32>)
    ensures
        match r {
            Some(x) => x == factorial(n as int),
            None => !fits(factorial(n as int)),
        },
{
    let mut acc: i64 = 1;
    let mut i: i32 = 0;
    if n <= 0 {
        return Some(1);
    }
    while i < n
        invariant
            0 <= i <= n,
            acc == factorial(i as int),
            1 <= acc <= i32::MAX,
        decreases n - i,
    {
        assert(0 <= acc * (i + 1) <= 4611686018427387904) by (nonlinear_arith)
            requires
                1 <= acc <= 2147483647,
                0 <= i < 2147483647,
        ;
        let next = acc * ((i + 1) as i64);
        assert(next == factorial(i + 1)) by {
            assert((i + 1) * factorial(i as int) == factorial(i as int) * (i + 1))
                by (nonlinear_arith);
        }
        proof {
            lemma_factorial_grows(i + 1, n as int);
        }
        if next > 2147483647 {
            return None;
        }
        acc = next;
        i += 1;
    }
    Some(acc as i32)
}

/// The greatest common divisor: see [`gcd_of`].
pub fn gcd(a: i32, b: i32) -> (g: i32)
    ensures
        g == gcd_of(a as int, b as int),
{
    let mut x = a;
    let mut y = b;
    while y != 0
        invariant
            gcd_of(x as int, y as int) == gcd_of(a as int, b as int),
        decreases magnitude(y as int),
    {
        proof {
            vstd::arithmetic::div_mod::lemma_mod_pos_bound(
                magnitude(x as int),
                magnitude(y as int),
            );
        }
        let r = rem_trunc(x, y);
        x = y;
        y = r;
    }
    x
}

} // verus!
