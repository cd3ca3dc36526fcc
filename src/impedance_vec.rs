use vstd::prelude::*;
use vstd::std_specs::ops::{AddSpecImpl, DivSpecImpl, MulSpecImpl, NegSpecImpl, SubSpecImpl};
use crate::scalar::{Scalar, total_ops, sadd, szero, zero};
use crate::linalg::{
    Vec3, Vec6, vadd, vsub, vneg, vscale, vdiv, head3, tail3, arr3, add3, sub3, neg3, scale3, div3, get_first_vec3, get_second_vec3, join_vec3, vcross, vdot, cross3, dot3, vcmul, cmul3,
};
use crate::motion_vec::{MotionVector, motion_cross, force_cross};
use crate::force_vec::ForceVector;

verus! {

/// A diagonal spatial impedance (for example a stiffness): one gain per
/// angular and per linear direction.
#[derive(Clone, Copy, Debug, PartialEq)]
pub struct ImpedanceVector<T> {
    pub angular: Vec3<T>,
    pub linear: Vec3<T>,
}

impl<T> View for ImpedanceVector<T> {
    type V = Seq<T>;

    /// The flat 6-vector: angular block first, linear block last.
    open spec fn view(&self) -> Seq<T> {
        self.angular@ + self.linear@
    }
}

impl<T: Scalar> ImpedanceVector<T> {
    pub fn zero() -> (r: Self)
        requires
            total_ops::<T>(),
        ensures
            r@ == Seq::new(6, |i: int| szero::<T>()),
    {
        let z = zero::<T>();
        let r = ImpedanceVector { angular: [z, z, z], linear: [z, z, z] };
        assert(r@ =~= Seq::new(6, |i: int| szero::<T>()));
        r
    }

    /// The same as `zero`.
    pub fn new() -> (r: Self)
        requires
            total_ops::<T>(),
        ensures
            r@ == Seq::new(6, |i: int| szero::<T>()),
    {
        Self::zero()
    }

    pub fn from_vector(vector: Vec6<T>) -> (r: Self)
        ensures
            r@ == vector@,
            r.angular@ == head3(vector@),
            r.linear@ == tail3(vector@),
    {
        let r = ImpedanceVector { angular: get_first_vec3(&vector), linear: get_second_vec3(&vector) };
        assert(r@ =~= vector@);
        r
    }

    pub fn from_vectors(angular: Vec3<T>, linear: Vec3<T>) -> (r: Self)
        ensures
            r.angular == angular,
            r.linear == linear,
    {
        ImpedanceVector { angular, linear }
    }

    /// The isotropic value: `angular` on each angular entry, `linear` on each
    /// linear entry.
    pub fn from_scalars(angular: T, linear: T) -> (r: Self)
        ensures
            r@ == seq![angular, angular, angular, linear, linear, linear],
    {
        let r = ImpedanceVector { angular: [angular, angular, angular], linear: [linear, linear, linear] };
        assert(r@ =~= seq![angular, angular, angular, linear, linear, linear]);
        r
    }

    pub fn vector(&self) -> (r: Vec6<T>)
        ensures
            r@ == self@,
    {
        join_vec3(&self.angular, &self.linear)
    }

    /// The spatial cross product: `(ω × ω2, ω × v2 + v × ω2)`.
    pub fn cross(&self, other: ImpedanceVector<T>) -> (r: ImpedanceVector<T>)
        requires
            total_ops::<T>(),
        ensures
            r.angular@ == vcross(self.angular@, other.angular@),
            r.linear@ == vadd(
                vcross(self.angular@, other.linear@),
                vcross(self.linear@, other.angular@),
            ),
            r@ == motion_cross(self@, other@),
    {
        let r = ImpedanceVector {
            angular: cross3(&self.angular, &other.angular),
            linear: add3(&cross3(&self.angular, &other.linear), &cross3(&self.linear, &other.angular)),
        };
        assert(head3(self@) =~= self.angular@);
        assert(tail3(self@) =~= self.linear@);
        assert(head3(other@) =~= other.angular@);
        assert(tail3(other@) =~= other.linear@);
        r
    }

    /// The action on a force: `(ω × c + v × f, ω × f)`.
    pub fn cross_dual(&self, other: ForceVector<T>) -> (r: ForceVector<T>)
        requires
            total_ops::<T>(),
        ensures
            r.couple@ == vadd(
                vcross(self.angular@, other.couple@),
                vcross(self.linear@, other.force@),
            ),
            r.force@ == vcross(self.angular@, other.force@),
            r@ == force_cross(self@, other@),
    {
        let r = ForceVector {
            couple: add3(&cross3(&self.angular, &other.couple), &cross3(&self.linear, &other.force)),
            force: cross3(&self.angular, &other.force),
        };
        assert(head3(self@) =~= self.angular@);
        assert(tail3(self@) =~= self.linear@);
        assert(head3(other@) =~= other.couple@);
        assert(tail3(other@) =~= other.force@);
        r
    }

    /// The power pairing `angular · couple + linear · force`.
    pub fn dot(&self, other: ForceVector<T>) -> (r: T)
        requires
            total_ops::<T>(),
        ensures
            r == sadd(vdot(self.angular@, other.couple@), vdot(self.linear@, other.force@)),
    {
        dot3(&self.angular, &other.couple) + dot3(&self.linear, &other.force)
    }

    pub fn add_assign(&mut self, other: ImpedanceVector<T>)
        requires
            total_ops::<T>(),
        ensures
            final(self)@ == vadd(old(self)@, other@),
    {
        *self = *self + other;
        assert(self@ =~= vadd(old(self)@, other@));
    }

    pub fn sub_assign(&mut self, other: ImpedanceVector<T>)
        requires
            total_ops::<T>(),
        ensures
            final(self)@ == vsub(old(self)@, other@),
    {
        *self = *self - other;
        assert(self@ =~= vsub(old(self)@, other@));
    }

    pub fn mul_assign(&mut self, scalar: T)
        requires
            total_ops::<T>(),
        ensures
            final(self)@ == vscale(scalar, old(self)@),
    {
        *self = *self * scalar;
        assert(self@ =~= vscale(scalar, old(self)@));
    }

    pub fn div_assign(&mut self, scalar: T)
        requires
            total_ops::<T>(),
        ensures
            final(self)@ == vdiv(old(self)@, scalar),
    {
        *self = *self / scalar;
        assert(self@ =~= vdiv(old(self)@, scalar));
    }
}

impl<T: Scalar> core::ops::Add for ImpedanceVector<T> {
    type Output = ImpedanceVector<T>;

    fn add(self, other: ImpedanceVector<T>) -> (r: ImpedanceVector<T>) {
        let r = ImpedanceVector { angular: add3(&self.angular, &other.angular), linear: add3(&self.linear, &other.linear) };
        assert(r.angular =~= arr3(vadd(self.angular@, other.angular@)));
        assert(r.linear =~= arr3(vadd(self.linear@, other.linear@)));
        r
    }
}

impl<T: Scalar> AddSpecImpl for ImpedanceVector<T> {
    open spec fn obeys_add_spec() -> bool {
        true
    }

    open spec fn add_req(self, other: ImpedanceVector<T>) -> bool {
        total_ops::<T>()
    }

    /// Entry by entry.
    open spec fn add_spec(self, other: ImpedanceVector<T>) -> ImpedanceVector<T> {
        ImpedanceVector { angular: arr3(vadd(self.angular@, other.angular@)), linear: arr3(vadd(self.linear@, other.linear@)) }
    }
}

impl<T: Scalar> core::ops::Sub for ImpedanceVector<T> {
    type Output = ImpedanceVector<T>;

    fn sub(self, other: ImpedanceVector<T>) -> (r: ImpedanceVector<T>) {
        let r = ImpedanceVector { angular: sub3(&self.angular, &other.angular), linear: sub3(&self.linear, &other.linear) };
        assert(r.angular =~= arr3(vsub(self.angular@, other.angular@)));
        assert(r.linear =~= arr3(vsub(self.linear@, other.linear@)));
        r
    }
}

impl<T: Scalar> SubSpecImpl for ImpedanceVector<T> {
    open spec fn obeys_sub_spec() -> bool {
        true
    }

    open spec fn sub_req(self, other: ImpedanceVector<T>) -> bool {
        total_ops::<T>()
    }

    /// Entry by entry.
    open spec fn sub_spec(self, other: ImpedanceVector<T>) -> ImpedanceVector<T> {
        ImpedanceVector { angular: arr3(vsub(self.angular@, other.angular@)), linear: arr3(vsub(self.linear@, other.linear@)) }
    }
}

impl<T: Scalar> core::ops::Neg for ImpedanceVector<T> {
    type Output = ImpedanceVector<T>;

    fn neg(self) -> (r: ImpedanceVector<T>) {
        let r = ImpedanceVector { angular: neg3(&self.angular), linear: neg3(&self.linear) };
        assert(r.angular =~= arr3(vneg(self.angular@)));
        assert(r.linear =~= arr3(vneg(self.linear@)));
        r
    }
}

impl<T: Scalar> NegSpecImpl for ImpedanceVector<T> {
    open spec fn obeys_neg_spec() -> bool {
        true
    }

    open spec fn neg_req(self) -> bool {
        total_ops::<T>()
    }

    /// Entry by entry.
    open spec fn neg_spec(self) -> ImpedanceVector<T> {
        ImpedanceVector { angular: arr3(vneg(self.angular@)), linear: arr3(vneg(self.linear@)) }
    }
}

/// Scaling; `z * s` multiplies each entry as `s * x`.
impl<T: Scalar> core::ops::Mul<T> for ImpedanceVector<T> {
    type Output = ImpedanceVector<T>;

    fn mul(self, scalar: T) -> (r: ImpedanceVector<T>) {
        let r = ImpedanceVector { angular: scale3(scalar, &self.angular), linear: scale3(scalar, &self.linear) };
        assert(r.angular =~= arr3(vscale(scalar, self.angular@)));
        assert(r.linear =~= arr3(vscale(scalar, self.linear@)));
        r
    }
}

impl<T: Scalar> MulSpecImpl<T> for ImpedanceVector<T> {
    open spec fn obeys_mul_spec() -> bool {
        true
    }

    open spec fn mul_req(self, scalar: T) -> bool {
        total_ops::<T>()
    }

    open spec fn mul_spec(self, scalar: T) -> ImpedanceVector<T> {
        ImpedanceVector { angular: arr3(vscale(scalar, self.angular@)), linear: arr3(vscale(scalar, self.linear@)) }
    }
}

impl<T: Scalar> core::ops::Div<T> for ImpedanceVector<T> {
    type Output = ImpedanceVector<T>;

    fn div(self, scalar: T) -> (r: ImpedanceVector<T>) {
        let r = ImpedanceVector { angular: div3(&self.angular, scalar), linear: div3(&self.linear, scalar) };
        assert(r.angular =~= arr3(vdiv(self.angular@, scalar)));
        assert(r.linear =~= arr3(vdiv(self.linear@, scalar)));
        r
    }
}

impl<T: Scalar> DivSpecImpl<T> for ImpedanceVector<T> {
    open spec fn obeys_div_spec() -> bool {
        true
    }

    open spec fn div_req(self, scalar: T) -> bool {
        total_ops::<T>()
    }

    open spec fn div_spec(self, scalar: T) -> ImpedanceVector<T> {
        ImpedanceVector { angular: arr3(vdiv(self.angular@, scalar)), linear: arr3(vdiv(self.linear@, scalar)) }
    }
}

/// The force `z ⊙ m`, entry by entry.
impl<T: Scalar> core::ops::Mul<MotionVector<T>> for ImpedanceVector<T> {
    type Output = ForceVector<T>;

    fn mul(self, other: MotionVector<T>) -> (r: ForceVector<T>) {
        let r = ForceVector { couple: cmul3(&self.angular, &other.angular), force: cmul3(&self.linear, &other.linear) };
        assert(r.couple =~= arr3(vcmul(self.angular@, other.angular@)));
        assert(r.force =~= arr3(vcmul(self.linear@, other.linear@)));
        r
    }
}

impl<T: Scalar> MulSpecImpl<MotionVector<T>> for ImpedanceVector<T> {
    open spec fn obeys_mul_spec() -> bool {
        true
    }

    open spec fn mul_req(self, other: MotionVector<T>) -> bool {
        total_ops::<T>()
    }

    open spec fn mul_spec(self, other: MotionVector<T>) -> ForceVector<T> {
        ForceVector { couple: arr3(vcmul(self.angular@, other.angular@)), force: arr3(vcmul(self.linear@, other.linear@)) }
    }
}

/// The force `m ⊙ z`, entry by entry.
impl<T: Scalar> core::ops::Mul<ImpedanceVector<T>> for MotionVector<T> {
    type Output = ForceVector<T>;

    fn mul(self, other: ImpedanceVector<T>) -> (r: ForceVector<T>) {
        let r = ForceVector { couple: cmul3(&self.angular, &other.angular), force: cmul3(&self.linear, &other.linear) };
        assert(r.couple =~= arr3(vcmul(self.angular@, other.angular@)));
        assert(r.force =~= arr3(vcmul(self.linear@, other.linear@)));
        r
    }
}

impl<T: Scalar> MulSpecImpl<ImpedanceVector<T>> for MotionVector<T> {
    open spec fn obeys_mul_spec() -> bool {
        true
    }

    open spec fn mul_req(self, other: ImpedanceVector<T>) -> bool {
        total_ops::<T>()
    }

    open spec fn mul_spec(self, other: ImpedanceVector<T>) -> ForceVector<T> {
        ForceVector { couple: arr3(vcmul(self.angular@, other.angular@)), force: arr3(vcmul(self.linear@, other.linear@)) }
    }
}

} // verus!
