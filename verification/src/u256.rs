//! 256-bit unsigned integers, for products of two balances.
//!
//! The arithmetic is `sp_core::U256`'s. A [`U256`] holds the same four words,
//! so a value crosses over to that crate and back unchanged, and the
//! contracts below say over natural numbers what each of its operations does.
use vstd::arithmetic::div_mod::lemma_fundamental_div_mod;
use vstd::arithmetic::mul::lemma_mul_is_commutative;
use vstd::prelude::*;

verus! {

/// A 256-bit unsigned integer: four 64-bit words, the least significant first.
#[derive(Clone, Copy, PartialEq, Eq, Debug)]
pub struct U256 {
    pub limbs: [u64; 4],
}

/// One past the largest 256-bit value.
pub open spec fn modulus() -> nat {
    0x1_0000000000000000_0000000000000000_0000000000000000_0000000000000000nat
}

/// `a / d`, rounded up.
pub open spec fn div_ceil(a: int, d: int) -> int {
    if a % d == 0 {
        a / d
    } else {
        a / d + 1
    }
}

impl U256 {
    /// The number that the four words stand for.
    pub open spec fn value(&self) -> nat {
        (self.limbs@[0] as nat) + 0x1_0000000000000000nat * (self.limbs@[1] as nat)
            + 0x1_0000000000000000_0000000000000000nat * (self.limbs@[2] as nat)
            + 0x1_0000000000000000_0000000000000000_0000000000000000nat * (
        self.limbs@[3] as nat)
    }

    /// `sp_core::U256::from(u128)`: the same number, in 256 bits.
    #[verifier::external_body]
    pub(crate) fn from_u128(v: u128) -> (r: Self)
        ensures
            r.value() == v,
    {
        U256 { limbs: sp_core::U256::from(v).0 }
    }

    /// `sp_core::U256 * sp_core::U256`: the product. The operator panics where
    /// the product does not fit in 256 bits, so that is left out.
    #[verifier::external_body]
    pub(crate) fn product(&self, other: &Self) -> (r: Self)
        requires
            self.value() * other.value() < modulus(),
        ensures
            r.value() == self.value() * other.value(),
    {
        U256 { limbs: (sp_core::U256(self.limbs) * sp_core::U256(other.limbs)).0 }
    }

    /// `sp_core::U256 / sp_core::U256`: the quotient, rounded down. The operator
    /// panics on a zero divisor, so that is left out.
    #[verifier::external_body]
    pub(crate) fn quotient(&self, other: &Self) -> (r: Self)
        requires
            other.value() != 0,
        ensures
            r.value() == self.value() / other.value(),
    {
        U256 { limbs: (sp_core::U256(self.limbs) / sp_core::U256(other.limbs)).0 }
    }

    /// `sp_core::U256::integer_sqrt`: the largest number whose square does not
    /// exceed the argument.
    #[verifier::external_body]
    pub(crate) fn integer_sqrt(&self) -> (r: Self)
        ensures
            r.value() * r.value() <= self.value() < (r.value() + 1) * (r.value() + 1),
    {
        U256 { limbs: sp_core::U256(self.limbs).integer_sqrt().0 }
    }

    /// `u128::try_from(sp_core::U256)`: the same number where it fits in 128
    /// bits, an error (here `None`) where it does not.
    #[verifier::external_body]
    pub(crate) fn try_to_u128(&self) -> (r: Option<u128>)
        ensures
            r == if self.value() <= u128::MAX {
                Some(self.value() as u128)
            } else {
                None
            },
    {
        u128::try_from(sp_core::U256(self.limbs)).ok()
    }

    /// Whether two values are the same number.
    pub fn same(&self, other: &Self) -> (r: bool)
        ensures
            r == (self.value() == other.value()),
    {
        self.limbs[0] == other.limbs[0] && self.limbs[1] == other.limbs[1] && self.limbs[2]
            == other.limbs[2] && self.limbs[3] == other.limbs[3]
    }
}

/// The product of two 128-bit numbers.
pub fn mul_wide(a: u128, b: u128) -> (r: U256)
    ensures
        r.value() == a * b,
{
    proof {
        lemma_product_fits(a, b);
    }
    U256::from_u128(a).product(&U256::from_u128(b))
}

/// Two 128-bit numbers have a product of at most 256 bits.
proof fn lemma_product_fits(a: u128, b: u128)
    ensures
        0 <= a * b < modulus(),
{
    let m: int = u128::MAX as int;
    assert(0 <= a * b <= m * m) by (nonlinear_arith)
        requires
            0 <= a <= m,
            0 <= b <= m,
    ;
    assert(m * m < modulus()) by (nonlinear_arith)
        requires
            m == 0xffff_ffff_ffff_ffff_ffff_ffff_ffff_ffffint,
            modulus()
                == 0x1_0000000000000000_0000000000000000_0000000000000000_0000000000000000nat,
    ;
}

/// `a * b / d` rounded down, without overflow in between; `None` where the
/// quotient does not fit.
pub fn mul_div_floor(a: u128, b: u128, d: u128) -> (r: Option<u128>)
    requires
        d != 0,
    ensures
        r == if a * b / (d as int) <= u128::MAX {
            Some((a * b / (d as int)) as u128)
        } else {
            None
        },
{
    mul_wide(a, b).quotient(&U256::from_u128(d)).try_to_u128()
}

/// `a * b / d` rounded up, without overflow in between; `None` where the
/// quotient does not fit.
pub fn mul_div_ceil(a: u128, b: u128, d: u128) -> (r: Option<u128>)
    requires
        d != 0,
    ensures
        r == if div_ceil(a * b, d as int) <= u128::MAX {
            Some(div_ceil(a * b, d as int) as u128)
        } else {
            None
        },
{
    let n = mul_wide(a, b);
    match n.quotient(&U256::from_u128(d)).try_to_u128() {
        None => None,
        Some(q) => {
            let exact = mul_wide(q, d).same(&n);
            proof {
                lemma_fundamental_div_mod(a * b, d as int);
                lemma_mul_is_commutative(q as int, d as int);
            }
            if exact {
                Some(q)
            } else {
                q.checked_add(1)
            }
        },
    }
}

/// Rounding up: the smallest multiple of `d` that is no less than `a`.
pub proof fn lemma_div_ceil(a: int, d: int)
    requires
        d > 0,
    ensures
        div_ceil(a, d) * d >= a,
        (div_ceil(a, d) - 1) * d < a,
        a >= 0 ==> div_ceil(a, d) >= 0,
{
    lemma_fundamental_div_mod(a, d);
    let q = a / d;
    assert(d * q == q * d && (q + 1) * d == q * d + d && (q - 1) * d == q * d - d)
        by (nonlinear_arith);
    if a >= 0 {
        assert(q >= 0) by (nonlinear_arith)
            requires
                q == a / d,
                a >= 0,
                d > 0,
        ;
    }
}

/// A number reaches the rounded-up quotient exactly where its multiple
/// reaches the dividend.
pub proof fn lemma_div_ceil_least(a: int, d: int, x: int)
    requires
        d > 0,
    ensures
        x >= div_ceil(a, d) <==> x * d >= a,
{
    lemma_div_ceil(a, d);
    let c = div_ceil(a, d);
    if x >= c {
        assert(x * d >= c * d) by (nonlinear_arith)
            requires
                x >= c,
                d > 0,
        ;
    } else {
        assert(x * d <= (c - 1) * d) by (nonlinear_arith)
            requires
                x <= c - 1,
                d > 0,
        ;
    }
}

/// Rounding down: the largest multiple of `d` that does not exceed `a`.
pub proof fn lemma_div_floor(a: int, d: int)
    requires
        d > 0,
    ensures
        (a / d) * d <= a,
        a < (a / d + 1) * d,
        a >= 0 ==> a / d >= 0,
{
    lemma_fundamental_div_mod(a, d);
    let q = a / d;
    assert(d * q == q * d && (q + 1) * d == q * d + d) by (nonlinear_arith);
    if a >= 0 {
        assert(q >= 0) by (nonlinear_arith)
            requires
                q == a / d,
                a >= 0,
                d > 0,
        ;
    }
}

/// A number stays below the rounded-down quotient exactly where its multiple
/// stays below the dividend.
pub proof fn lemma_div_floor_greatest(a: int, d: int, x: int)
    requires
        d > 0,
    ensures
        x <= a / d <==> x * d <= a,
{
    lemma_div_floor(a, d);
    let q = a / d;
    if x <= q {
        assert(x * d <= q * d) by (nonlinear_arith)
            requires
                x <= q,
                d > 0,
        ;
    } else {
        assert(x * d >= (q + 1) * d) by (nonlinear_arith)
            requires
                x >= q + 1,
                d > 0,
        ;
    }
}

} // verus!
