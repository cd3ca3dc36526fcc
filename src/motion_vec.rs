use vstd::prelude::*;
use vstd::std_specs::ops::{AddSpecImpl, DivSpecImpl, MulSpecImpl, NegSpecImpl, SubSpecImpl};
use crate::scalar::{Scalar, total_ops, sadd, szero, zero};
use crate::linalg::{
    Vec3, Vec6, vadd, vsub, vneg, vscale, vdiv, head3, tail3, arr3, add3, sub3, neg3, scale3, div3, get_first_vec3, get_second_vec3, join_vec3, vcross, vdot, cross3, dot3,
};
use crate::force_vec::ForceVector;

verus! {

/// A spatial motion vector (twist): an angular and a linear velocity.
#[derive(Clone, Copy, Debug, PartialEq)]
pub struct MotionVector<T> {
    pub angular: Vec3<T>,
    pub linear: Vec3<T>,
}

impl<T> View for MotionVector<T> {
    type V = Seq<T>;

    /// The flat 6-vector: angular block first, linear block last.
    open spec fn view(&self) -> Seq<T> {
        self.angular@ + self.linear@
    }
}

/// The spatial cross product on flat 6-vectors:
/// `(ω × ω2, ω × v2 + v × ω2)`.
pub open spec fn motion_cross<T: Scalar>(a: Seq<T>, b: Seq<T>) -> Seq<T> {
    vcross(head3(a), head3(b)) + vadd(vcross(head3(a), tail3(b)), vcross(tail3(a), head3(b)))
}

/// The action of a motion on a force, on flat 6-vectors:
/// `(ω × c + v × f, ω × f)`.
pub open spec fn force_cross<T: Scalar>(a: Seq<T>, f: Seq<T>) -> Seq<T> {
    vadd(vcross(head3(a), head3(f)), vcross(tail3(a), tail3(f))) + vcross(head3(a), tail3(f))
}

impl<T: Scalar> MotionVector<T> {
    pub fn zero() -> (r: Self)
        requires
            total_ops::<T>(),
        ensures
            r@ == Seq::new(6, |i: int| szero::<T>()),
    {
        let z = zero::<T>();
        let r = MotionVector { angular: [z, z, z], linear: [z, z, z] };
        assert(r@ =~= Seq::new(6, |i: int| szero::<T>()));
        r
    }

    /// The same as `zero`.
    pub fn new() -> (r: Self)
        requires
            total_ops::<T>(),
        ensures
            r@ == Seq::new(6, |i: int| szero::<T>()),
    {
        Self::zero()
    }

    pub fn from_vector(vector: Vec6<T>) -> (r: Self)
        ensures
            r@ == vector@,
            r.angular@ == head3(vector@),
            r.linear@ == tail3(vector@),
    {
        let r = MotionVector { angular: get_first_vec3(&vector), linear: get_second_vec3(&vector) };
        assert(r@ =~= vector@);
        r
    }

    pub fn from_vectors(angular: Vec3<T>, linear: Vec3<T>) -> (r: Self)
        ensures
            r.angular == angular,
            r.linear == linear,
    {
        MotionVector { angular, linear }
    }

    pub fn vector(&self) -> (r: Vec6<T>)
        ensures
            r@ == self@,
    {
        join_vec3(&self.angular, &self.linear)
    }

    /// The spatial cross product: `(ω × ω2, ω × v2 + v × ω2)`.
    pub fn cross(&self, other: MotionVector<T>) -> (r: MotionVector<T>)
        requires
            total_ops::<T>(),
        ensures
            r.angular@ == vcross(self.angular@, other.angular@),
            r.linear@ == vadd(
                vcross(self.angular@, other.linear@),
                vcross(self.linear@, other.angular@),
            ),
            r@ == motion_cross(self@, other@),
    {
        let r = MotionVector {
            angular: cross3(&self.angular, &other.angular),
            linear: add3(&cross3(&self.angular, &other.linear), &cross3(&self.linear, &other.angular)),
        };
        assert(head3(self@) =~= self.angular@);
        assert(tail3(self@) =~= self.linear@);
        assert(head3(other@) =~= other.angular@);
        assert(tail3(other@) =~= other.linear@);
        r
    }

    /// The action on a force: `(ω × c + v × f, ω × f)`.
    pub fn cross_dual(&self, other: ForceVector<T>) -> (r: ForceVector<T>)
        requires
            total_ops::<T>(),
        ensures
            r.couple@ == vadd(
                vcross(self.angular@, other.couple@),
                vcross(self.linear@, other.force@),
            ),
            r.force@ == vcross(self.angular@, other.force@),
            r@ == force_cross(self@, other@),
    {
        let r = ForceVector {
            couple: add3(&cross3(&self.angular, &other.couple), &cross3(&self.linear, &other.force)),
            force: cross3(&self.angular, &other.force),
        };
        assert(head3(self@) =~= self.angular@);
        assert(tail3(self@) =~= self.linear@);
        assert(head3(other@) =~= other.couple@);
        assert(tail3(other@) =~= other.force@);
        r
    }

    /// The power pairing `angular · couple + linear · force`.
    pub fn dot(&self, other: ForceVector<T>) -> (r: T)
        requires
            total_ops::<T>(),
        ensures
            r == sadd(vdot(self.angular@, other.couple@), vdot(self.linear@, other.force@)),
    {
        dot3(&self.angular, &other.couple) + dot3(&self.linear, &other.force)
    }

    pub fn add_assign(&mut self, other: MotionVector<T>)
        requires
            total_ops::<T>(),
        ensures
            final(self)@ == vadd(old(self)@, other@),
    {
        *self = *self + other;
        assert(self@ =~= vadd(old(self)@, other@));
    }

    pub fn sub_assign(&mut self, other: MotionVector<T>)
        requires
            total_ops::<T>(),
        ensures
            final(self)@ == vsub(old(self)@, other@),
    {
        *self = *self - other;
        assert(self@ =~= vsub(old(self)@, other@));
    }

    pub fn mul_assign(&mut self, scalar: T)
        requires
            total_ops::<T>(),
        ensures
            final(self)@ == vscale(scalar, old(self)@),
    {
        *self = *self * scalar;
        assert(self@ =~= vscale(scalar, old(self)@));
    }

    pub fn div_assign(&mut self, scalar: T)
        requires
            total_ops::<T>(),
        ensures
            final(self)@ == vdiv(old(self)@, scalar),
    {
        *self = *self / scalar;
        assert(self@ =~= vdiv(old(self)@, scalar));
    }
}

impl<T: Scalar> core::ops::Add for MotionVector<T> {
    type Output = MotionVector<T>;

    fn add(self, other: MotionVector<T>) -> (r: MotionVector<T>) {
        let r = MotionVector { angular: add3(&self.angular, &other.angular), linear: add3(&self.linear, &other.linear) };
        assert(r.angular =~= arr3(vadd(self.angular@, other.angular@)));
        assert(r.linear =~= arr3(vadd(self.linear@, other.linear@)));
        r
    }
}

impl<T: Scalar> AddSpecImpl for MotionVector<T> {
    open spec fn obeys_add_spec() -> bool {
        true
    }

    open spec fn add_req(self, other: MotionVector<T>) -> bool {
        total_ops::<T>()
    }

    /// Entry by entry.
    open spec fn add_spec(self, other: MotionVector<T>) -> MotionVector<T> {
        MotionVector { angular: arr3(vadd(self.angular@, other.angular@)), linear: arr3(vadd(self.linear@, other.linear@)) }
    }
}

impl<T: Scalar> core::ops::Sub for MotionVector<T> {
    type Output = MotionVector<T>;

    fn sub(self, other: MotionVector<T>) -> (r: MotionVector<T>) {
        let r = MotionVector { angular: sub3(&self.angular, &other.angular), linear: sub3(&self.linear, &other.linear) };
        assert(r.angular =~= arr3(vsub(self.angular@, other.angular@)));
        assert(r.linear =~= arr3(vsub(self.linear@, other.linear@)));
        r
    }
}

impl<T: Scalar> SubSpecImpl for MotionVector<T> {
    open spec fn obeys_sub_spec() -> bool {
        true
    }

    open spec fn sub_req(self, other: MotionVector<T>) -> bool {
        total_ops::<T>()
    }

    /// Entry by entry.
    open spec fn sub_spec(self, other: MotionVector<T>) -> MotionVector<T> {
        MotionVector { angular: arr3(vsub(self.angular@, other.angular@)), linear: arr3(vsub(self.linear@, other.linear@)) }
    }
}

impl<T: Scalar> core::ops::Neg for MotionVector<T> {
    type Output = MotionVector<T>;

    fn neg(self) -> (r: MotionVector<T>) {
        let r = MotionVector { angular: neg3(&self.angular), linear: neg3(&self.linear) };
        assert(r.angular =~= arr3(vneg(self.angular@)));
        assert(r.linear =~= arr3(vneg(self.linear@)));
        r
    }
}

impl<T: Scalar> NegSpecImpl for MotionVector<T> {
    open spec fn obeys_neg_spec() -> bool {
        true
    }

    open spec fn neg_req(self) -> bool {
        total_ops::<T>()
    }

    /// Entry by entry.
    open spec fn neg_spec(self) -> MotionVector<T> {
        MotionVector { angular: arr3(vneg(self.angular@)), linear: arr3(vneg(self.linear@)) }
    }
}

/// Scaling; `m * s` multiplies each entry as `s * x`.
impl<T: Scalar> core::ops::Mul<T> for MotionVector<T> {
    type Output = MotionVector<T>;

    fn mul(self, scalar: T) -> (r: MotionVector<T>) {
        let r = MotionVector { angular: scale3(scalar, &self.angular), linear: scale3(scalar, &self.linear) };
        assert(r.angular =~= arr3(vscale(scalar, self.angular@)));
        assert(r.linear =~= arr3(vscale(scalar, self.linear@)));
        r
    }
}

impl<T: Scalar> MulSpecImpl<T> for MotionVector<T> {
    open spec fn obeys_mul_spec() -> bool {
        true
    }

    open spec fn mul_req(self, scalar: T) -> bool {
        total_ops::<T>()
    }

    open spec fn mul_spec(self, scalar: T) -> MotionVector<T> {
        MotionVector { angular: arr3(vscale(scalar, self.angular@)), linear: arr3(vscale(scalar, self.linear@)) }
    }
}

impl<T: Scalar> core::ops::Div<T> for MotionVector<T> {
    type Output = MotionVector<T>;

    fn div(self, scalar: T) -> (r: MotionVector<T>) {
        let r = MotionVector { angular: div3(&self.angular, scalar), linear: div3(&self.linear, scalar) };
        assert(r.angular =~= arr3(vdiv(self.angular@, scalar)));
        assert(r.linear =~= arr3(vdiv(self.linear@, scalar)));
        r
    }
}

impl<T: Scalar> DivSpecImpl<T> for MotionVector<T> {
    open spec fn obeys_div_spec() -> bool {
        true
    }

    open spec fn div_req(self, scalar: T) -> bool {
        total_ops::<T>()
    }

    open spec fn div_spec(self, scalar: T) -> MotionVector<T> {
        MotionVector { angular: arr3(vdiv(self.angular@, scalar)), linear: arr3(vdiv(self.linear@, scalar)) }
    }
}

} // verus!
