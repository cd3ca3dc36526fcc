use vstd::prelude::*;
use vstd::std_specs::ops::{AddSpecImpl, DivSpecImpl, MulSpecImpl, NegSpecImpl, SubSpecImpl};
use crate::scalar::{Scalar, total_ops, szero, zero};
use crate::linalg::{
    Vec3, Vec6, vadd, vsub, vneg, vscale, vdiv, head3, tail3, arr3, add3, sub3, neg3, scale3, div3, get_first_vec3, get_second_vec3, join_vec3,
};

verus! {

/// A spatial force vector (wrench): a couple and a force.
#[derive(Clone, Copy, Debug, PartialEq)]
pub struct ForceVector<T> {
    pub couple: Vec3<T>,
    pub force: Vec3<T>,
}

impl<T> View for ForceVector<T> {
    type V = Seq<T>;

    /// The flat 6-vector: couple block first, force block last.
    open spec fn view(&self) -> Seq<T> {
        self.couple@ + self.force@
    }
}

impl<T: Scalar> ForceVector<T> {
    pub fn zero() -> (r: Self)
        requires
            total_ops::<T>(),
        ensures
            r@ == Seq::new(6, |i: int| szero::<T>()),
    {
        let z = zero::<T>();
        let r = ForceVector { couple: [z, z, z], force: [z, z, z] };
        assert(r@ =~= Seq::new(6, |i: int| szero::<T>()));
        r
    }

    /// The same as `zero`.
    pub fn new() -> (r: Self)
        requires
            total_ops::<T>(),
        ensures
            r@ == Seq::new(6, |i: int| szero::<T>()),
    {
        Self::zero()
    }

    pub fn from_vector(vector: Vec6<T>) -> (r: Self)
        ensures
            r@ == vector@,
            r.couple@ == head3(vector@),
            r.force@ == tail3(vector@),
    {
        let r = ForceVector { couple: get_first_vec3(&vector), force: get_second_vec3(&vector) };
        assert(r@ =~= vector@);
        r
    }

    pub fn from_vectors(couple: Vec3<T>, force: Vec3<T>) -> (r: Self)
        ensures
            r.couple == couple,
            r.force == force,
    {
        ForceVector { couple, force }
    }

    pub fn vector(&self) -> (r: Vec6<T>)
        ensures
            r@ == self@,
    {
        join_vec3(&self.couple, &self.force)
    }

    pub fn add_assign(&mut self, other: ForceVector<T>)
        requires
            total_ops::<T>(),
        ensures
            final(self)@ == vadd(old(self)@, other@),
    {
        *self = *self + other;
        assert(self@ =~= vadd(old(self)@, other@));
    }

    pub fn sub_assign(&mut self, other: ForceVector<T>)
        requires
            total_ops::<T>(),
        ensures
            final(self)@ == vsub(old(self)@, other@),
    {
        *self = *self - other;
        assert(self@ =~= vsub(old(self)@, other@));
    }

    pub fn mul_assign(&mut self, scalar: T)
        requires
            total_ops::<T>(),
        ensures
            final(self)@ == vscale(scalar, old(self)@),
    {
        *self = *self * scalar;
        assert(self@ =~= vscale(scalar, old(self)@));
    }

    pub fn div_assign(&mut self, scalar: T)
        requires
            total_ops::<T>(),
        ensures
            final(self)@ == vdiv(old(self)@, scalar),
    {
        *self = *self / scalar;
        assert(self@ =~= vdiv(old(self)@, scalar));
    }
}

impl<T: Scalar> core::ops::Add for ForceVector<T> {
    type Output = ForceVector<T>;

    fn add(self, other: ForceVector<T>) -> (r: ForceVector<T>) {
        let r = ForceVector { couple: add3(&self.couple, &other.couple), force: add3(&self.force, &other.force) };
        assert(r.couple =~= arr3(vadd(self.couple@, other.couple@)));
        assert(r.force =~= arr3(vadd(self.force@, other.force@)));
        r
    }
}

impl<T: Scalar> AddSpecImpl for ForceVector<T> {
    open spec fn obeys_add_spec() -> bool {
        true
    }

    open spec fn add_req(self, other: ForceVector<T>) -> bool {
        total_ops::<T>()
    }

    /// Entry by entry.
    open spec fn add_spec(self, other: ForceVector<T>) -> ForceVector<T> {
        ForceVector { couple: arr3(vadd(self.couple@, other.couple@)), force: arr3(vadd(self.force@, other.force@)) }
    }
}

impl<T: Scalar> core::ops::Sub for ForceVector<T> {
    type Output = ForceVector<T>;

    fn sub(self, other: ForceVector<T>) -> (r: ForceVector<T>) {
        let r = ForceVector { couple: sub3(&self.couple, &other.couple), force: sub3(&self.force, &other.force) };
        assert(r.couple =~= arr3(vsub(self.couple@, other.couple@)));
        assert(r.force =~= arr3(vsub(self.force@, other.force@)));
        r
    }
}

impl<T: Scalar> SubSpecImpl for ForceVector<T> {
    open spec fn obeys_sub_spec() -> bool {
        true
    }

    open spec fn sub_req(self, other: ForceVector<T>) -> bool {
        total_ops::<T>()
    }

    /// Entry by entry.
    open spec fn sub_spec(self, other: ForceVector<T>) -> ForceVector<T> {
        ForceVector { couple: arr3(vsub(self.couple@, other.couple@)), force: arr3(vsub(self.force@, other.force@)) }
    }
}

impl<T: Scalar> core::ops::Neg for ForceVector<T> {
    type Output = ForceVector<T>;

    fn neg(self) -> (r: ForceVector<T>) {
        let r = ForceVector { couple: neg3(&self.couple), force: neg3(&self.force) };
        assert(r.couple =~= arr3(vneg(self.couple@)));
        assert(r.force =~= arr3(vneg(self.force@)));
        r
    }
}

impl<T: Scalar> NegSpecImpl for ForceVector<T> {
    open spec fn obeys_neg_spec() -> bool {
        true
    }

    open spec fn neg_req(self) -> bool {
        total_ops::<T>()
    }

    /// Entry by entry.
    open spec fn neg_spec(self) -> ForceVector<T> {
        ForceVector { couple: arr3(vneg(self.couple@)), force: arr3(vneg(self.force@)) }
    }
}

/// Scaling; `f * s` multiplies each entry as `s * x`.
impl<T: Scalar> core::ops::Mul<T> for ForceVector<T> {
    type Output = ForceVector<T>;

    fn mul(self, scalar: T) -> (r: ForceVector<T>) {
        let r = ForceVector { couple: scale3(scalar, &self.couple), force: scale3(scalar, &self.force) };
        assert(r.couple =~= arr3(vscale(scalar, self.couple@)));
        assert(r.force =~= arr3(vscale(scalar, self.force@)));
        r
    }
}

impl<T: Scalar> MulSpecImpl<T> for ForceVector<T> {
    open spec fn obeys_mul_spec() -> bool {
        true
    }

    open spec fn mul_req(self, scalar: T) -> bool {
        total_ops::<T>()
    }

    open spec fn mul_spec(self, scalar: T) -> ForceVector<T> {
        ForceVector { couple: arr3(vscale(scalar, self.couple@)), force: arr3(vscale(scalar, self.force@)) }
    }
}

impl<T: Scalar> core::ops::Div<T> for ForceVector<T> {
    type Output = ForceVector<T>;

    fn div(self, scalar: T) -> (r: ForceVector<T>) {
        let r = ForceVector { couple: div3(&self.couple, scalar), force: div3(&self.force, scalar) };
        assert(r.couple =~= arr3(vdiv(self.couple@, scalar)));
        assert(r.force =~= arr3(vdiv(self.force@, scalar)));
        r
    }
}

impl<T: Scalar> DivSpecImpl<T> for ForceVector<T> {
    open spec fn obeys_div_spec() -> bool {
        true
    }

    open spec fn div_req(self, scalar: T) -> bool {
        total_ops::<T>()
    }

    open spec fn div_spec(self, scalar: T) -> ForceVector<T> {
        ForceVector { couple: arr3(vdiv(self.couple@, scalar)), force: arr3(vdiv(self.force@, scalar)) }
    }
}

} // verus!
