use vstd::prelude::*;
use crate::scalar::{Scalar, total_ops, szero, zero};
use crate::linalg::{
    Vec3, Mat3, mat3_view, madd, mat_mul, transpose, vscale, add_mat3, mat3_mul, transpose3,
    scale3,
};
use crate::utility::{cross_mat, vector3_to_cross_matrix};

verus! {

/// The lower triangle of `m`, with zeros above the diagonal.
pub open spec fn lower_triangle<T: Scalar>(m: Seq<Seq<T>>) -> Seq<Seq<T>> {
    Seq::new(3, |i: int| Seq::new(3, |j: int| if j <= i { m[i][j] } else { szero::<T>() }))
}

/// The symmetric matrix whose lower triangle is that of `m`.
pub open spec fn mirror_lower<T>(m: Seq<Seq<T>>) -> Seq<Seq<T>> {
    Seq::new(3, |i: int| Seq::new(3, |j: int| if j <= i { m[i][j] } else { m[j][i] }))
}

/// A rigid-body spatial inertia: the mass, the first moment of mass, and the
/// rotational inertia, of which only the lower triangle is stored.
#[derive(Clone, Copy, Debug, PartialEq)]
pub struct RBInertia<T> {
    pub mass: T,
    pub momentum: Vec3<T>,
    /// The rotational inertia; only its lower triangle is read.
    pub inertia: Mat3<T>,
}

impl<T: Scalar> RBInertia<T> {
    /// The stored rotational inertia (its lower triangle is the one that counts).
    pub open spec fn stored(&self) -> Seq<Seq<T>> {
        mat3_view(self.inertia)
    }

    /// Keeps the lower triangle of `inertia` and discards the rest.
    pub fn new(mass: T, momentum: Vec3<T>, inertia: Mat3<T>) -> (r: Self)
        requires
            total_ops::<T>(),
        ensures
            r.mass == mass,
            r.momentum == momentum,
            r.stored() == lower_triangle(mat3_view(inertia)),
    {
        let z = zero::<T>();
        let m = inertia;
        let lower = [[m[0][0], z, z], [m[1][0], m[1][1], z], [m[2][0], m[2][1], m[2][2]]];
        let r = RBInertia { mass, momentum, inertia: lower };
        assert(r.stored() =~~= lower_triangle(mat3_view(inertia)));
        r
    }

    /// Takes `inertia` as it is; its upper triangle is expected to be zero.
    pub fn from_lower_triangle(mass: T, momentum: Vec3<T>, inertia: Mat3<T>) -> (r: Self)
        ensures
            r.mass == mass,
            r.momentum == momentum,
            r.stored() == mat3_view(inertia),
    {
        RBInertia { mass, momentum, inertia }
    }

    /// The stored lower-triangular rotational inertia.
    pub fn lower_triangular_inertia(&self) -> (r: Mat3<T>)
        ensures
            mat3_view(r) == self.stored(),
    {
        self.inertia
    }

    /// The full symmetric rotational inertia, mirrored from the lower triangle.
    pub fn inertia(&self) -> (r: Mat3<T>)
        ensures
            mat3_view(r) == mirror_lower(self.stored()),
    {
        let m = self.inertia;
        let r = [[m[0][0], m[1][0], m[2][0]], [m[1][0], m[1][1], m[2][1]], [m[2][0], m[2][1], m[2][2]]];
        assert(mat3_view(r) =~~= mirror_lower(self.stored()));
        r
    }
}

/// `R · (I + [m·c]× · [c]×ᵗ) · Rᵗ`.
pub open spec fn inertia_at_origin<T: Scalar>(
    inertia: Seq<Seq<T>>,
    mass: T,
    com: Seq<T>,
    rotation: Seq<Seq<T>>,
) -> Seq<Seq<T>> {
    let trans = mat_mul(cross_mat(vscale(mass, com)), transpose(cross_mat(com)));
    mat_mul(mat_mul(rotation, madd(inertia, trans)), transpose(rotation))
}

/// Moves a rotational inertia about the centre of mass `com` to the origin
/// (parallel axis theorem) and rotates it by `rotation`.
pub fn inertia_to_origin<T: Scalar>(inertia: &Mat3<T>, mass: T, com: &Vec3<T>, rotation: &Mat3<T>) -> (r: Mat3<T>)
    requires
        total_ops::<T>(),
    ensures
        mat3_view(r) == inertia_at_origin(
            mat3_view(*inertia),
            mass,
            com@,
            mat3_view(*rotation),
        ),
{
    let trans = mat3_mul(
        &vector3_to_cross_matrix(&scale3(mass, com)),
        &transpose3(&vector3_to_cross_matrix(com)),
    );
    mat3_mul(&mat3_mul(rotation, &add_mat3(inertia, &trans)), &transpose3(rotation))
}

} // verus!
