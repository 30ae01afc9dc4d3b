//! Fixed-width unsigned integers of 256 and 512 bits.
//!
//! A value is held as little-endian 64-bit limbs, and its view is the natural
//! number those limbs stand for. The arithmetic itself is done by the `Uint`
//! type of `ruint`, as re-exported by `alloy_primitives`; what this module
//! believes of each operation is stated on the crate-private methods of
//! [`Uint512`]. At these two widths every array of limbs is a value, so
//! moving limbs into a `Uint` and out of it loses nothing and cannot fail.

use vstd::prelude::*;

verus! {

/// The weight of one limb, `2^64`.
pub open spec fn limb_base() -> nat {
    0x1_0000_0000_0000_0000
}

/// `2^256`, one more than the largest [`Uint256`].
pub open spec fn pow2_256() -> nat {
    0x1_0000_0000_0000_0000_0000_0000_0000_0000_0000_0000_0000_0000_0000_0000_0000_0000nat
}

/// `2^512`, one more than the largest [`Uint512`].
pub open spec fn pow2_512() -> nat {
    0x1_0000_0000_0000_0000_0000_0000_0000_0000_0000_0000_0000_0000_0000_0000_0000_0000_0000_0000_0000_0000_0000_0000_0000_0000_0000_0000_0000_0000_0000_0000_0000_0000nat
}

/// The number that a little-endian sequence of limbs stands for.
pub open spec fn limbs_value(limbs: Seq<u64>) -> nat
    decreases limbs.len(),
{
    if limbs.len() == 0 {
        0
    } else {
        limbs[0] as nat + limb_base() * limbs_value(limbs.drop_first())
    }
}

/// `limb_base()` raised to the power `n`.
pub open spec fn limb_weight(n: nat) -> nat
    decreases n,
{
    if n == 0 {
        1
    } else {
        limb_base() * limb_weight((n - 1) as nat)
    }
}

/// A sequence of `n` limbs stands for a number below `2^(64 n)`.
pub proof fn lemma_limbs_value_bound(limbs: Seq<u64>)
    ensures
        limbs_value(limbs) < limb_weight(limbs.len()),
    decreases limbs.len(),
{
    if limbs.len() > 0 {
        let rest = limbs.drop_first();
        lemma_limbs_value_bound(rest);
        assert(limb_base() * (limbs_value(rest) + 1) <= limb_base() * limb_weight(rest.len()))
            by (nonlinear_arith)
            requires
                limbs_value(rest) + 1 <= limb_weight(rest.len()),
        ;
        assert(limb_base() * (limbs_value(rest) + 1) == limb_base() * limbs_value(rest)
            + limb_base()) by (nonlinear_arith);
    }
}

/// `2^512` is the square of `2^256`.
pub proof fn lemma_pow2_512_is_square()
    ensures
        pow2_256() * pow2_256() == pow2_512(),
{
}

/// A number of 512 bits is left as it is by reduction modulo `2^512`.
pub proof fn lemma_fits_512(x: int)
    requires
        0 <= x < pow2_512(),
    ensures
        x % (pow2_512() as int) == x,
{
    vstd::arithmetic::div_mod::lemma_small_mod(x as nat, pow2_512());
}

/// The product of two numbers of 256 bits is a number of 512 bits.
pub proof fn lemma_product_fits_512(a: nat, b: nat)
    requires
        a < pow2_256(),
        b < pow2_256(),
    ensures
        a * b < pow2_512(),
{
    vstd::arithmetic::mul::lemma_mul_upper_bound(
        a as int,
        pow2_256() - 1,
        b as int,
        pow2_256() - 1,
    );
    lemma_pow2_512_is_square();
    assert((pow2_256() - 1) * (pow2_256() - 1) < pow2_256() * pow2_256()) by (nonlinear_arith)
        requires
            pow2_256() > 1,
    ;
}

/// An unsigned integer of 256 bits.
#[derive(Clone, Copy, Debug, PartialEq, Eq)]
pub struct Uint256 {
    /// The limbs, least significant first.
    pub limbs: [u64; 4],
}

/// An unsigned integer of 512 bits.
#[derive(Clone, Copy, Debug, PartialEq, Eq)]
pub struct Uint512 {
    /// The limbs, least significant first.
    pub limbs: [u64; 8],
}

impl View for Uint256 {
    type V = nat;

    open spec fn view(&self) -> nat {
        limbs_value(self.limbs@)
    }
}

impl View for Uint512 {
    type V = nat;

    open spec fn view(&self) -> nat {
        limbs_value(self.limbs@)
    }
}

/// The sequence `limbs` with `n` zero limbs put behind it stands for the
/// same number.
proof fn lemma_zero_limbs_behind(limbs: Seq<u64>, n: nat)
    ensures
        limbs_value(limbs + Seq::new(n, |i: int| 0u64)) == limbs_value(limbs),
    decreases limbs.len() + n,
{
    let zeros = Seq::new(n, |i: int| 0u64);
    let all = limbs + zeros;
    if limbs.len() > 0 {
        assert(all.drop_first() =~= limbs.drop_first() + zeros);
        lemma_zero_limbs_behind(limbs.drop_first(), n);
    } else if n > 0 {
        assert(all.drop_first() =~= Seq::<u64>::empty() + Seq::new((n - 1) as nat, |i: int| 0u64));
        lemma_zero_limbs_behind(Seq::empty(), (n - 1) as nat);
    }
}

impl Uint256 {
    /// Every value is below `2^256`.
    pub proof fn lemma_bounded(self)
        ensures
            self@ < pow2_256(),
    {
        lemma_limbs_value_bound(self.limbs@);
        reveal_with_fuel(limb_weight, 5);
    }

    /// The value `x`.
    pub fn from_u64(x: u64) -> (r: Self)
        ensures
            r@ == x,
    {
        let limbs: [u64; 4] = [x, 0, 0, 0];
        proof {
            assert(limbs@ =~= seq![x] + Seq::new(3, |i: int| 0u64));
            lemma_zero_limbs_behind(seq![x], 3);
            reveal_with_fuel(limbs_value, 2);
        }
        Uint256 { limbs }
    }
}

impl Uint512 {
    /// Every value is below `2^512`.
    pub proof fn lemma_bounded(self)
        ensures
            self@ < pow2_512(),
    {
        lemma_limbs_value_bound(self.limbs@);
        reveal_with_fuel(limb_weight, 9);
    }

    /// The value of `x`, in the wider type.
    pub fn from_uint256(x: Uint256) -> (r: Self)
        ensures
            r@ == x@,
    {
        let limbs: [u64; 8] = [x.limbs[0], x.limbs[1], x.limbs[2], x.limbs[3], 0, 0, 0, 0];
        proof {
            assert(limbs@ =~= x.limbs@ + Seq::new(4, |i: int| 0u64));
            lemma_zero_limbs_behind(x.limbs@, 4);
        }
        Uint512 { limbs }
    }

    /// The value `x`.
    pub fn from_u64(x: u64) -> (r: Self)
        ensures
            r@ == x,
    {
        Self::from_uint256(Uint256::from_u64(x))
    }

    /// `Add::add` of `ruint::Uint`, at 512 bits: the sum, reduced modulo
    /// `2^512` (the operator forwards to `wrapping_add`).
    #[verifier::external_body]
    pub(crate) fn wrapping_add(self, rhs: Self) -> (r: Self)
        ensures
            r@ == (self@ + rhs@) % pow2_512(),
    {
        let sum = alloy_primitives::U512::from_limbs(self.limbs)
            + alloy_primitives::U512::from_limbs(rhs.limbs);
        Uint512 { limbs: sum.into_limbs() }
    }

    /// `Sub::sub` of `ruint::Uint`, at 512 bits: the difference, reduced
    /// modulo `2^512` (the operator forwards to `wrapping_sub`).
    #[verifier::external_body]
    pub(crate) fn wrapping_sub(self, rhs: Self) -> (r: Self)
        ensures
            r@ == (self@ - rhs@) % (pow2_512() as int),
    {
        let difference = alloy_primitives::U512::from_limbs(self.limbs)
            - alloy_primitives::U512::from_limbs(rhs.limbs);
        Uint512 { limbs: difference.into_limbs() }
    }

    /// `Mul::mul` of `ruint::Uint`, at 512 bits: the product, reduced modulo
    /// `2^512` (the operator forwards to `wrapping_mul`).
    #[verifier::external_body]
    pub(crate) fn wrapping_mul(self, rhs: Self) -> (r: Self)
        ensures
            r@ == (self@ * rhs@) % pow2_512(),
    {
        let product = alloy_primitives::U512::from_limbs(self.limbs)
            * alloy_primitives::U512::from_limbs(rhs.limbs);
        Uint512 { limbs: product.into_limbs() }
    }

    /// `Div::div` of `ruint::Uint`, at 512 bits: the quotient, rounded down.
    /// The operator panics on a zero divisor, which `requires` leaves out.
    #[verifier::external_body]
    pub(crate) fn div(self, rhs: Self) -> (r: Self)
        requires
            rhs@ != 0,
        ensures
            r@ == self@ / rhs@,
    {
        let quotient = alloy_primitives::U512::from_limbs(self.limbs)
            / alloy_primitives::U512::from_limbs(rhs.limbs);
        Uint512 { limbs: quotient.into_limbs() }
    }

    /// `PartialOrd::lt` of `ruint::Uint`, at 512 bits: the order of the
    /// numbers.
    #[verifier::external_body]
    pub(crate) fn lt(self, rhs: Self) -> (r: bool)
        ensures
            r == (self@ < rhs@),
    {
        alloy_primitives::U512::from_limbs(self.limbs)
            < alloy_primitives::U512::from_limbs(rhs.limbs)
    }

    /// `PartialOrd::gt` of `ruint::Uint`, at 512 bits: the order of the
    /// numbers.
    #[verifier::external_body]
    pub(crate) fn gt(self, rhs: Self) -> (r: bool)
        ensures
            r == (self@ > rhs@),
    {
        alloy_primitives::U512::from_limbs(self.limbs)
            > alloy_primitives::U512::from_limbs(rhs.limbs)
    }

    /// `Uint::is_zero` of `ruint`, at 512 bits: whether the number is zero.
    #[verifier::external_body]
    pub(crate) fn is_zero(self) -> (r: bool)
        ensures
            r == (self@ == 0),
    {
        alloy_primitives::U512::from_limbs(self.limbs).is_zero()
    }
}

} // verus!
