use vstd::prelude::*;
use vstd::std_specs::convert::FromSpec;
use vstd::std_specs::ops::{AddSpec, DivSpec, MulSpec, NegSpec, SubSpec};

verus! {

/// A number type that the spatial quantities are built from: copyable, with
/// the four arithmetic operations, negation, and the small integers.
pub trait Scalar:
    Copy + core::ops::Add<Output = Self> + core::ops::Sub<Output = Self> + core::ops::Mul<
        Output = Self,
    > + core::ops::Div<Output = Self> + core::ops::Neg<Output = Self> + core::convert::From<u8> {

}

impl<T> Scalar for T where
    T: Copy + core::ops::Add<Output = T> + core::ops::Sub<Output = T> + core::ops::Mul<
        Output = T,
    > + core::ops::Div<Output = T> + core::ops::Neg<Output = T> + core::convert::From<u8>,
 {

}

/// Every operation of `T` is defined on all operands (no overflow check, no
/// panic) and returns what its specification names.
pub open spec fn total_ops<T: Scalar>() -> bool {
    &&& T::obeys_add_spec()
    &&& T::obeys_sub_spec()
    &&& T::obeys_mul_spec()
    &&& T::obeys_div_spec()
    &&& T::obeys_neg_spec()
    &&& T::obeys_from_spec()
    &&& forall|a: T, b: T| #[trigger] a.add_req(b)
    &&& forall|a: T, b: T| #[trigger] a.sub_req(b)
    &&& forall|a: T, b: T| #[trigger] a.mul_req(b)
    &&& forall|a: T, b: T| #[trigger] a.div_req(b)
    &&& forall|a: T| #[trigger] a.neg_req()
}

pub open spec fn sadd<T: Scalar>(a: T, b: T) -> T {
    a.add_spec(b)
}

pub open spec fn ssub<T: Scalar>(a: T, b: T) -> T {
    a.sub_spec(b)
}

pub open spec fn smul<T: Scalar>(a: T, b: T) -> T {
    a.mul_spec(b)
}

pub open spec fn sdiv<T: Scalar>(a: T, b: T) -> T {
    a.div_spec(b)
}

pub open spec fn sneg<T: Scalar>(a: T) -> T {
    a.neg_spec()
}

pub open spec fn szero<T: Scalar>() -> T {
    T::from_spec(0u8)
}

pub open spec fn sone<T: Scalar>() -> T {
    T::from_spec(1u8)
}

pub fn zero<T: Scalar>() -> (r: T)
    requires
        total_ops::<T>(),
    ensures
        r == szero::<T>(),
{
    T::from(0u8)
}

pub fn one<T: Scalar>() -> (r: T)
    requires
        total_ops::<T>(),
    ensures
        r == sone::<T>(),
{
    T::from(1u8)
}

} // verus!

verus! {

/// The spec operations of `T` form a commutative ring: the exact arithmetic
/// that floating point approximates.
#[verifier::opaque]
pub open spec fn ring<T: Scalar>() -> bool {
    &&& forall|a: T, b: T| #[trigger] sadd(a, b) == sadd(b, a)
    &&& forall|a: T, b: T, c: T| #[trigger] sadd(sadd(a, b), c) == sadd(a, sadd(b, c))
    &&& forall|a: T| #[trigger] sadd(a, szero::<T>()) == a
    &&& forall|a: T| #[trigger] sadd(a, sneg(a)) == szero::<T>()
    &&& forall|a: T, b: T| #[trigger] ssub(a, b) == sadd(a, sneg(b))
    &&& forall|a: T, b: T| #[trigger] smul(a, b) == smul(b, a)
    &&& forall|a: T, b: T, c: T| #[trigger] smul(smul(a, b), c) == smul(a, smul(b, c))
    &&& forall|a: T| #[trigger] smul(a, sone::<T>()) == a
    &&& forall|a: T, b: T, c: T| #[trigger] smul(a, sadd(b, c)) == sadd(smul(a, b), smul(a, c))
}

pub proof fn ax_add_comm<T: Scalar>(a: T, b: T)
    requires
        ring::<T>(),
    ensures
        sadd(a, b) == sadd(b, a),
{
    reveal(ring);
}

pub proof fn ax_add_assoc<T: Scalar>(a: T, b: T, c: T)
    requires
        ring::<T>(),
    ensures
        sadd(sadd(a, b), c) == sadd(a, sadd(b, c)),
{
    reveal(ring);
}

pub proof fn ax_add_zero<T: Scalar>(a: T)
    requires
        ring::<T>(),
    ensures
        sadd(a, szero::<T>()) == a,
        sadd(szero::<T>(), a) == a,
{
    reveal(ring);
    assert(sadd(szero::<T>(), a) == sadd(a, szero::<T>()));
}

pub proof fn ax_add_neg<T: Scalar>(a: T)
    requires
        ring::<T>(),
    ensures
        sadd(a, sneg(a)) == szero::<T>(),
        sadd(sneg(a), a) == szero::<T>(),
{
    reveal(ring);
    assert(sadd(sneg(a), a) == sadd(a, sneg(a)));
}

pub proof fn ax_sub<T: Scalar>(a: T, b: T)
    requires
        ring::<T>(),
    ensures
        ssub(a, b) == sadd(a, sneg(b)),
{
    reveal(ring);
}

pub proof fn ax_mul_comm<T: Scalar>(a: T, b: T)
    requires
        ring::<T>(),
    ensures
        smul(a, b) == smul(b, a),
{
    reveal(ring);
}

pub proof fn ax_mul_assoc<T: Scalar>(a: T, b: T, c: T)
    requires
        ring::<T>(),
    ensures
        smul(smul(a, b), c) == smul(a, smul(b, c)),
{
    reveal(ring);
}

pub proof fn ax_mul_one<T: Scalar>(a: T)
    requires
        ring::<T>(),
    ensures
        smul(a, sone::<T>()) == a,
        smul(sone::<T>(), a) == a,
{
    reveal(ring);
    assert(smul(sone::<T>(), a) == smul(a, sone::<T>()));
}

/// Both distributive laws.
pub proof fn ax_distrib<T: Scalar>(a: T, b: T, c: T)
    requires
        ring::<T>(),
    ensures
        smul(a, sadd(b, c)) == sadd(smul(a, b), smul(a, c)),
        smul(sadd(b, c), a) == sadd(smul(b, a), smul(c, a)),
{
    reveal(ring);
    assert(smul(sadd(b, c), a) == smul(a, sadd(b, c)));
    assert(smul(b, a) == smul(a, b));
    assert(smul(c, a) == smul(a, c));
}

/// An element that adds to `x` to give zero is `-x`.
pub proof fn lemma_neg_unique<T: Scalar>(x: T, y: T)
    requires
        ring::<T>(),
        sadd(x, y) == szero::<T>(),
    ensures
        y == sneg(x),
{
    ax_add_zero(y);
    ax_add_zero(sneg(x));
    ax_add_neg(x);
    ax_add_assoc(sneg(x), x, y);
}

pub proof fn lemma_mul_zero<T: Scalar>(a: T)
    requires
        ring::<T>(),
    ensures
        smul(a, szero::<T>()) == szero::<T>(),
        smul(szero::<T>(), a) == szero::<T>(),
{
    let z = szero::<T>();
    let p = smul(a, z);
    ax_distrib(a, z, z);
    ax_add_zero(z);
    ax_add_zero(p);
    ax_add_neg(p);
    ax_add_assoc(p, p, sneg(p));
    ax_mul_comm(z, a);
}

pub proof fn lemma_neg_mul<T: Scalar>(a: T, b: T)
    requires
        ring::<T>(),
    ensures
        smul(sneg(a), b) == sneg(smul(a, b)),
        smul(a, sneg(b)) == sneg(smul(a, b)),
{
    lemma_mul_zero(b);
    lemma_mul_zero(a);
    ax_add_neg(a);
    ax_add_neg(b);
    ax_distrib(b, a, sneg(a));
    ax_mul_comm(b, a);
    ax_mul_comm(b, sneg(a));
    lemma_neg_unique(smul(a, b), smul(sneg(a), b));
    ax_distrib(a, b, sneg(b));
    lemma_neg_unique(smul(a, b), smul(a, sneg(b)));
}

pub proof fn lemma_neg_neg<T: Scalar>(a: T)
    requires
        ring::<T>(),
    ensures
        sneg(sneg(a)) == a,
{
    ax_add_neg(a);
    lemma_neg_unique(sneg(a), a);
}

pub proof fn lemma_neg_zero<T: Scalar>()
    requires
        ring::<T>(),
    ensures
        sneg(szero::<T>()) == szero::<T>(),
{
    ax_add_zero(szero::<T>());
    lemma_neg_unique(szero::<T>(), szero::<T>());
}

pub proof fn lemma_neg_add<T: Scalar>(a: T, b: T)
    requires
        ring::<T>(),
    ensures
        sneg(sadd(a, b)) == sadd(sneg(a), sneg(b)),
{
    let na = sneg(a);
    let nb = sneg(b);
    ax_add_assoc(a, b, sadd(na, nb));
    ax_add_assoc(b, na, nb);
    ax_add_comm(b, na);
    ax_add_assoc(na, b, nb);
    ax_add_neg(b);
    ax_add_neg(a);
    ax_add_zero(na);
    lemma_neg_unique(sadd(a, b), sadd(na, nb));
}

} // verus!
