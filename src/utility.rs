use vstd::prelude::*;
use core::ops::Neg;
use crate::scalar::{Scalar, total_ops, sneg, szero, zero};
use crate::linalg::{
    Vec3, Vec6, Mat3, Mat6, mat3_view, mat6_view, head3, tail3, transpose, mneg, blocks,
    zero_block, get_first_vec3, get_second_vec3, from_blocks, transpose3, neg_mat3, zero_mat3,
};

verus! {

/// The skew-symmetric matrix `[v]×`, for which `[v]× · w == v × w`.
pub open spec fn cross_mat<T: Scalar>(v: Seq<T>) -> Seq<Seq<T>> {
    seq![
        seq![szero::<T>(), sneg(v[2]), v[1]],
        seq![v[2], szero::<T>(), sneg(v[0])],
        seq![sneg(v[1]), v[0], szero::<T>()],
    ]
}

/// The spatial cross matrix of a motion vector `(ω, v)`:
/// `[[ω]×, 0], [[v]×, [ω]×]`.
pub open spec fn cross_mat6<T: Scalar>(v: Seq<T>) -> Seq<Seq<T>> {
    blocks(
        cross_mat(head3(v)),
        zero_block::<T>(),
        cross_mat(tail3(v)),
        cross_mat(head3(v)),
    )
}

/// The dual spatial cross matrix: the negated transpose of the cross matrix.
pub open spec fn cross_dual_mat6<T: Scalar>(v: Seq<T>) -> Seq<Seq<T>> {
    mneg(transpose(cross_mat6(v)))
}

pub fn vector3_to_cross_matrix<T: Scalar>(vec: &Vec3<T>) -> (r: Mat3<T>)
    requires
        total_ops::<T>(),
    ensures
        mat3_view(r) == cross_mat(vec@),
{
    let z = zero::<T>();
    let r = [[z, vec[2].neg(), vec[1]], [vec[2], z, vec[0].neg()], [vec[1].neg(), vec[0], z]];
    assert(mat3_view(r) =~~= cross_mat(vec@));
    r
}

pub fn vector6_to_cross_matrix<T: Scalar>(vec: &Vec6<T>) -> (r: Mat6<T>)
    requires
        total_ops::<T>(),
    ensures
        mat6_view(r) == cross_mat6(vec@),
{
    let c13 = vector3_to_cross_matrix(&get_first_vec3(vec));
    let c31 = vector3_to_cross_matrix(&get_second_vec3(vec));
    let z = zero_mat3::<T>();
    from_blocks(&c13, &z, &c31, &c13)
}

pub fn vector6_to_cross_dual_matrix<T: Scalar>(vec: &Vec6<T>) -> (r: Mat6<T>)
    requires
        total_ops::<T>(),
    ensures
        mat6_view(r) == cross_dual_mat6(vec@),
{
    let c13 = vector3_to_cross_matrix(&get_first_vec3(vec));
    let c31 = vector3_to_cross_matrix(&get_second_vec3(vec));
    let a = neg_mat3(&transpose3(&c13));
    let b = neg_mat3(&transpose3(&c31));
    let z = neg_mat3(&zero_mat3::<T>());
    let r = from_blocks(&a, &b, &z, &a);
    assert(mat6_view(r) =~~= cross_dual_mat6(vec@));
    r
}

} // verus!
