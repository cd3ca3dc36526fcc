use vstd::prelude::*;
use core::ops::Neg;
use vstd::std_specs::convert::FromSpec;
use vstd::std_specs::ops::MulSpecImpl;
use crate::scalar::{Scalar, total_ops, sadd, ssub, smul, sdiv, sneg, sone, szero, zero, one};
use crate::linalg::{
    Vec3, Mat3, Mat6, mat3_view, mat6_view, vadd, vsub, vscale, vcross, mneg, transpose, mat_vec,
    mat_mul, blocks, zero_block, add3, sub3, cross3, transpose3, neg_mat3, mat3_mul_vec, mat3_mul,
    zero_mat3, from_blocks, scale3, arr3, arr33, lemma_arr3_view, lemma_arr33_view,
};
use crate::utility::{cross_mat, vector3_to_cross_matrix};
use crate::motion_vec::MotionVector;
use crate::force_vec::ForceVector;

verus! {

/// The 3×3 identity matrix.
pub open spec fn ident3<T: Scalar>() -> Seq<Seq<T>> {
    Seq::new(3, |i: int| Seq::new(3, |j: int| if i == j { sone::<T>() } else { szero::<T>() }))
}

/// A Plücker coordinate transform, frame A to frame B: a rotation, and the
/// offset of B's origin relative to A's, expressed in A.
#[derive(Clone, Copy, Debug, PartialEq)]
pub struct PTransform<T> {
    pub rotation: Mat3<T>,
    pub translation: Vec3<T>,
}

impl<T> View for PTransform<T> {
    type V = (Seq<Seq<T>>, Seq<T>);

    /// The rotation, row by row, and the translation.
    open spec fn view(&self) -> (Seq<Seq<T>>, Seq<T>) {
        (mat3_view(self.rotation), self.translation@)
    }
}

/// The inverse transform `(Rᵗ, (-R) · t)`.
pub open spec fn tf_inv<T: Scalar>(x: (Seq<Seq<T>>, Seq<T>)) -> (Seq<Seq<T>>, Seq<T>) {
    (transpose(x.0), mat_vec(mneg(x.0), x.1))
}

/// The composition `x * y`: rotation `Rx · Ry`, translation `ty + Ryᵗ · tx`.
pub open spec fn tf_mul<T: Scalar>(x: (Seq<Seq<T>>, Seq<T>), y: (Seq<Seq<T>>, Seq<T>)) -> (
    Seq<Seq<T>>,
    Seq<T>,
) {
    (mat_mul(x.0, y.0), vadd(y.1, mat_vec(transpose(y.0), x.1)))
}

impl<T: Scalar> PTransform<T> {
    /// The rotation, row by row.
    pub open spec fn rot(&self) -> Seq<Seq<T>> {
        mat3_view(self.rotation)
    }

    /// The transposed rotation.
    pub open spec fn rot_t(&self) -> Seq<Seq<T>> {
        transpose(mat3_view(self.rotation))
    }

    /// The off-diagonal block `(-R) · [t]×` of both 6×6 forms.
    pub open spec fn skew_block(&self) -> Seq<Seq<T>> {
        mat_mul(mneg(self.rot()), cross_mat(self.translation@))
    }

    pub fn identity() -> (r: Self)
        requires
            total_ops::<T>(),
        ensures
            r.rot() == ident3::<T>(),
            r.translation@ == seq![szero::<T>(), szero::<T>(), szero::<T>()],
    {
        let z = zero::<T>();
        let o = one::<T>();
        let r = PTransform { rotation: [[o, z, z], [z, o, z], [z, z, o]], translation: [z, z, z] };
        assert(r.rot() =~~= ident3::<T>());
        assert(r.translation@ =~= seq![szero::<T>(), szero::<T>(), szero::<T>()]);
        r
    }

    pub fn from_mat_vec(rot: Mat3<T>, trans: Vec3<T>) -> (r: Self)
        ensures
            r.rotation == rot,
            r.translation == trans,
    {
        PTransform { rotation: rot, translation: trans }
    }

    /// A pure rotation.
    pub fn from_mat(rot: Mat3<T>) -> (r: Self)
        requires
            total_ops::<T>(),
        ensures
            r.rotation == rot,
            r.translation@ == seq![szero::<T>(), szero::<T>(), szero::<T>()],
    {
        let z = zero::<T>();
        let r = PTransform { rotation: rot, translation: [z, z, z] };
        assert(r.translation@ =~= seq![szero::<T>(), szero::<T>(), szero::<T>()]);
        r
    }

    /// A pure translation.
    pub fn from_vec(trans: Vec3<T>) -> (r: Self)
        requires
            total_ops::<T>(),
        ensures
            r.rot() == ident3::<T>(),
            r.translation == trans,
    {
        let z = zero::<T>();
        let o = one::<T>();
        let r = PTransform { rotation: [[o, z, z], [z, o, z], [z, z, o]], translation: trans };
        assert(r.rot() =~~= ident3::<T>());
        r
    }

    fn skew_block_exec(&self) -> (r: Mat3<T>)
        requires
            total_ops::<T>(),
        ensures
            mat3_view(r) == self.skew_block(),
    {
        mat3_mul(&neg_mat3(&self.rotation), &vector3_to_cross_matrix(&self.translation))
    }

    /// The 6×6 motion transform `[[R, 0], [(-R)·[t]×, R]]`.
    pub fn matrix(&self) -> (r: Mat6<T>)
        requires
            total_ops::<T>(),
        ensures
            mat6_view(r) == blocks(self.rot(), zero_block::<T>(), self.skew_block(), self.rot()),
    {
        let s = self.skew_block_exec();
        from_blocks(&self.rotation, &zero_mat3::<T>(), &s, &self.rotation)
    }

    /// The 6×6 force transform `[[R, (-R)·[t]×], [0, R]]`.
    pub fn dual_matrix(&self) -> (r: Mat6<T>)
        requires
            total_ops::<T>(),
        ensures
            mat6_view(r) == blocks(self.rot(), self.skew_block(), zero_block::<T>(), self.rot()),
    {
        let s = self.skew_block_exec();
        from_blocks(&self.rotation, &s, &zero_mat3::<T>(), &self.rotation)
    }

    /// `R · ω`.
    pub fn angular_mul(&self, mv: &MotionVector<T>) -> (r: Vec3<T>)
        requires
            total_ops::<T>(),
        ensures
            r@ == mat_vec(self.rot(), mv.angular@),
    {
        mat3_mul_vec(&self.rotation, &mv.angular)
    }

    /// `R · (v - t × ω)`.
    pub fn linear_mul(&self, mv: &MotionVector<T>) -> (r: Vec3<T>)
        requires
            total_ops::<T>(),
        ensures
            r@ == mat_vec(self.rot(), vsub(mv.linear@, vcross(self.translation@, mv.angular@))),
    {
        mat3_mul_vec(&self.rotation, &sub3(&mv.linear, &cross3(&self.translation, &mv.angular)))
    }

    /// `Rᵗ · ω`.
    pub fn angular_inv_mul(&self, mv: &MotionVector<T>) -> (r: Vec3<T>)
        requires
            total_ops::<T>(),
        ensures
            r@ == mat_vec(self.rot_t(), mv.angular@),
    {
        mat3_mul_vec(&transpose3(&self.rotation), &mv.angular)
    }

    /// `Rᵗ · v + t × (Rᵗ · ω)`.
    pub fn linear_inv_mul(&self, mv: &MotionVector<T>) -> (r: Vec3<T>)
        requires
            total_ops::<T>(),
        ensures
            r@ == vadd(
                mat_vec(self.rot_t(), mv.linear@),
                vcross(self.translation@, mat_vec(self.rot_t(), mv.angular@)),
            ),
    {
        let rt = transpose3(&self.rotation);
        add3(
            &mat3_mul_vec(&rt, &mv.linear),
            &cross3(&self.translation, &mat3_mul_vec(&rt, &mv.angular)),
        )
    }

    /// The action of the inverse transform on a motion vector.
    pub fn inv_mul(&self, mv: &MotionVector<T>) -> (r: MotionVector<T>)
        requires
            total_ops::<T>(),
        ensures
            r.angular@ == mat_vec(self.rot_t(), mv.angular@),
            r.linear@ == vadd(
                mat_vec(self.rot_t(), mv.linear@),
                vcross(self.translation@, mat_vec(self.rot_t(), mv.angular@)),
            ),
    {
        MotionVector { angular: self.angular_inv_mul(mv), linear: self.linear_inv_mul(mv) }
    }

    /// `R · (c - t × f)`.
    pub fn couple_dual_mul(&self, fv: &ForceVector<T>) -> (r: Vec3<T>)
        requires
            total_ops::<T>(),
        ensures
            r@ == mat_vec(self.rot(), vsub(fv.couple@, vcross(self.translation@, fv.force@))),
    {
        mat3_mul_vec(&self.rotation, &sub3(&fv.couple, &cross3(&self.translation, &fv.force)))
    }

    /// `R · f`.
    pub fn force_dual_mul(&self, fv: &ForceVector<T>) -> (r: Vec3<T>)
        requires
            total_ops::<T>(),
        ensures
            r@ == mat_vec(self.rot(), fv.force@),
    {
        mat3_mul_vec(&self.rotation, &fv.force)
    }

    /// The dual action, on a force vector.
    pub fn dual_mul(&self, fv: &ForceVector<T>) -> (r: ForceVector<T>)
        requires
            total_ops::<T>(),
        ensures
            r.couple@ == mat_vec(self.rot(), vsub(fv.couple@, vcross(self.translation@, fv.force@))),
            r.force@ == mat_vec(self.rot(), fv.force@),
    {
        ForceVector { couple: self.couple_dual_mul(fv), force: self.force_dual_mul(fv) }
    }

    /// `Rᵗ · c + t × (Rᵗ · f)`.
    pub fn couple_trans_mul(&self, fv: &ForceVector<T>) -> (r: Vec3<T>)
        requires
            total_ops::<T>(),
        ensures
            r@ == vadd(
                mat_vec(self.rot_t(), fv.couple@),
                vcross(self.translation@, mat_vec(self.rot_t(), fv.force@)),
            ),
    {
        let rt = transpose3(&self.rotation);
        add3(
            &mat3_mul_vec(&rt, &fv.couple),
            &cross3(&self.translation, &mat3_mul_vec(&rt, &fv.force)),
        )
    }

    /// `Rᵗ · f`.
    pub fn force_trans_mul(&self, fv: &ForceVector<T>) -> (r: Vec3<T>)
        requires
            total_ops::<T>(),
        ensures
            r@ == mat_vec(self.rot_t(), fv.force@),
    {
        mat3_mul_vec(&transpose3(&self.rotation), &fv.force)
    }

    /// The action of the transposed dual transform on a force vector.
    pub fn trans_mul(&self, fv: &ForceVector<T>) -> (r: ForceVector<T>)
        requires
            total_ops::<T>(),
        ensures
            r.couple@ == vadd(
                mat_vec(self.rot_t(), fv.couple@),
                vcross(self.translation@, mat_vec(self.rot_t(), fv.force@)),
            ),
            r.force@ == mat_vec(self.rot_t(), fv.force@),
    {
        ForceVector { couple: self.couple_trans_mul(fv), force: self.force_trans_mul(fv) }
    }

    /// The inverse transform `(Rᵗ, (-R) · t)`.
    pub open spec fn inv_spec(self) -> PTransform<T> {
        PTransform { rotation: arr33(tf_inv(self@).0), translation: arr3(tf_inv(self@).1) }
    }

    /// The inverse transform `(Rᵗ, (-R) · t)`.
    pub fn inv(&self) -> (r: Self)
        requires
            total_ops::<T>(),
        ensures
            r == self.inv_spec(),
            r@ == tf_inv(self@),
    {
        let r = PTransform {
            rotation: transpose3(&self.rotation),
            translation: mat3_mul_vec(&neg_mat3(&self.rotation), &self.translation),
        };
        proof {
            lemma_arr33_view(r.rotation, tf_inv(self@).0);
            lemma_arr3_view(r.translation, tf_inv(self@).1);
        }
        r
    }
}

/// The composition `x1 * x2`: rotation `R1 · R2`, translation `t2 + R2ᵗ · t1`.
impl<T: Scalar> core::ops::Mul for PTransform<T> {
    type Output = PTransform<T>;

    fn mul(self, other: PTransform<T>) -> (r: PTransform<T>) {
        let r = PTransform {
            rotation: mat3_mul(&self.rotation, &other.rotation),
            translation: add3(
                &other.translation,
                &mat3_mul_vec(&transpose3(&other.rotation), &self.translation),
            ),
        };
        proof {
            lemma_arr33_view(r.rotation, tf_mul(self@, other@).0);
            lemma_arr3_view(r.translation, tf_mul(self@, other@).1);
        }
        r
    }
}

impl<T: Scalar> MulSpecImpl for PTransform<T> {
    open spec fn obeys_mul_spec() -> bool {
        true
    }

    open spec fn mul_req(self, other: PTransform<T>) -> bool {
        total_ops::<T>()
    }

    open spec fn mul_spec(self, other: PTransform<T>) -> PTransform<T> {
        PTransform {
            rotation: arr33(tf_mul(self@, other@).0),
            translation: arr3(tf_mul(self@, other@).1),
        }
    }
}

/// The action on a motion vector: `(R · ω, R · (v - t × ω))`.
impl<T: Scalar> core::ops::Mul<MotionVector<T>> for PTransform<T> {
    type Output = MotionVector<T>;

    fn mul(self, mv: MotionVector<T>) -> (r: MotionVector<T>) {
        let r = MotionVector { angular: self.angular_mul(&mv), linear: self.linear_mul(&mv) };
        proof {
            lemma_arr3_view(r.angular, mat_vec(self.rot(), mv.angular@));
            lemma_arr3_view(
                r.linear,
                mat_vec(self.rot(), vsub(mv.linear@, vcross(self.translation@, mv.angular@))),
            );
        }
        r
    }
}

impl<T: Scalar> MulSpecImpl<MotionVector<T>> for PTransform<T> {
    open spec fn obeys_mul_spec() -> bool {
        true
    }

    open spec fn mul_req(self, mv: MotionVector<T>) -> bool {
        total_ops::<T>()
    }

    open spec fn mul_spec(self, mv: MotionVector<T>) -> MotionVector<T> {
        MotionVector {
            angular: arr3(mat_vec(self.rot(), mv.angular@)),
            linear: arr3(
                mat_vec(self.rot(), vsub(mv.linear@, vcross(self.translation@, mv.angular@))),
            ),
        }
    }
}

/// The elementary rotation about x, `[[1, 0, 0], [0, c, s], [0, -s, c]]`.
pub open spec fn rot_x_mat<T: Scalar>(s: T, c: T) -> Seq<Seq<T>> {
    seq![
        seq![sone::<T>(), szero::<T>(), szero::<T>()],
        seq![szero::<T>(), c, s],
        seq![szero::<T>(), sneg(s), c],
    ]
}

/// The rotation of a frame by `θ` about x, from `sin θ` and `cos θ`:
/// `[[1, 0, 0], [0, c, s], [0, -s, c]]`.
pub fn rot_x_sin_cos<T: Scalar>(s: T, c: T) -> (r: Mat3<T>)
    requires
        total_ops::<T>(),
    ensures
        mat3_view(r) == rot_x_mat(s, c),
{
    let z = zero::<T>();
    let o = one::<T>();
    let r = [[o, z, z], [z, c, s], [z, s.neg(), c]];
    assert(mat3_view(r) =~~= rot_x_mat(s, c));
    r
}

/// The elementary rotation about y, `[[c, 0, -s], [0, 1, 0], [s, 0, c]]`.
pub open spec fn rot_y_mat<T: Scalar>(s: T, c: T) -> Seq<Seq<T>> {
    seq![
        seq![c, szero::<T>(), sneg(s)],
        seq![szero::<T>(), sone::<T>(), szero::<T>()],
        seq![s, szero::<T>(), c],
    ]
}

/// The rotation of a frame by `θ` about y, from `sin θ` and `cos θ`:
/// `[[c, 0, -s], [0, 1, 0], [s, 0, c]]`.
pub fn rot_y_sin_cos<T: Scalar>(s: T, c: T) -> (r: Mat3<T>)
    requires
        total_ops::<T>(),
    ensures
        mat3_view(r) == rot_y_mat(s, c),
{
    let z = zero::<T>();
    let o = one::<T>();
    let r = [[c, z, s.neg()], [z, o, z], [s, z, c]];
    assert(mat3_view(r) =~~= rot_y_mat(s, c));
    r
}

/// The elementary rotation about z, `[[c, s, 0], [-s, c, 0], [0, 0, 1]]`.
pub open spec fn rot_z_mat<T: Scalar>(s: T, c: T) -> Seq<Seq<T>> {
    seq![
        seq![c, s, szero::<T>()],
        seq![sneg(s), c, szero::<T>()],
        seq![szero::<T>(), szero::<T>(), sone::<T>()],
    ]
}

/// The rotation of a frame by `θ` about z, from `sin θ` and `cos θ`:
/// `[[c, s, 0], [-s, c, 0], [0, 0, 1]]`.
pub fn rot_z_sin_cos<T: Scalar>(s: T, c: T) -> (r: Mat3<T>)
    requires
        total_ops::<T>(),
    ensures
        mat3_view(r) == rot_z_mat(s, c),
{
    let z = zero::<T>();
    let o = one::<T>();
    let r = [[c, s, z], [s.neg(), c, z], [z, z, o]];
    assert(mat3_view(r) =~~= rot_z_mat(s, c));
    r
}

/// One half, as `1 / 2`.
pub open spec fn shalf<T: Scalar>() -> T {
    sdiv(sone::<T>(), T::from_spec(2u8))
}

/// `(trace(E) - 1) / 2`, the cosine of the rotation angle of `E`.
pub open spec fn cos_angle<T: Scalar>(e: Seq<Seq<T>>) -> T {
    smul(ssub(sadd(sadd(e[0][0], e[1][1]), e[2][2]), sone::<T>()), shalf::<T>())
}

/// The axis part of a rotation: the entries of `E - Eᵗ` below the diagonal,
/// `[-E21 + E12, -E02 + E20, -E10 + E01]`.
pub open spec fn skew_axis<T: Scalar>(e: Seq<Seq<T>>) -> Seq<T> {
    seq![
        sadd(sneg(e[2][1]), e[1][2]),
        sadd(sneg(e[0][2]), e[2][0]),
        sadd(sneg(e[1][0]), e[0][1]),
    ]
}

fn half<T: Scalar>() -> (r: T)
    requires
        total_ops::<T>(),
    ensures
        r == shalf::<T>(),
{
    one::<T>() / T::from(2u8)
}

/// The cosine of the rotation angle of `e_a_b`, `(trace - 1) / 2`; the angle
/// itself is its arc cosine, after clamping to `[-1, 1]`.
pub fn rotation_cos_angle<T: Scalar>(e_a_b: &Mat3<T>) -> (r: T)
    requires
        total_ops::<T>(),
    ensures
        r == cos_angle(mat3_view(*e_a_b)),
{
    (e_a_b[0][0] + e_a_b[1][1] + e_a_b[2][2] - one::<T>()) * half::<T>()
}

/// The rotation velocity of `e_a_b`, given `sinc⁻¹(θ)` for its rotation
/// angle `θ`: the axis part scaled by `sinc⁻¹(θ) / 2`.
pub fn rotation_velocity_from<T: Scalar>(e_a_b: &Mat3<T>, sinc_inv_theta: T) -> (r: Vec3<T>)
    requires
        total_ops::<T>(),
    ensures
        r@ == vscale(smul(sinc_inv_theta, shalf::<T>()), skew_axis(mat3_view(*e_a_b))),
{
    let w = [
        e_a_b[2][1].neg() + e_a_b[1][2],
        e_a_b[0][2].neg() + e_a_b[2][0],
        e_a_b[1][0].neg() + e_a_b[0][1],
    ];
    assert(w@ =~= skew_axis(mat3_view(*e_a_b)));
    scale3(sinc_inv_theta * half::<T>(), &w)
}

/// The rotation `E_b_c = E_a_c · E_a_bᵗ` of C relative to B.
pub fn relative_rotation<T: Scalar>(e_a_b: &Mat3<T>, e_a_c: &Mat3<T>) -> (r: Mat3<T>)
    requires
        total_ops::<T>(),
    ensures
        mat3_view(r) == mat_mul(mat3_view(*e_a_c), transpose(mat3_view(*e_a_b))),
{
    mat3_mul(e_a_c, &transpose3(e_a_b))
}

/// Expresses the rotation velocity `w_b_c` of C relative to B in frame A:
/// `E_a_bᵗ · w_b_c`.
pub fn rotation_error_from<T: Scalar>(e_a_b: &Mat3<T>, w_b_c: &Vec3<T>) -> (r: Vec3<T>)
    requires
        total_ops::<T>(),
    ensures
        r@ == mat_vec(transpose(mat3_view(*e_a_b)), w_b_c@),
{
    mat3_mul_vec(&transpose3(e_a_b), w_b_c)
}

/// Expresses the velocity `v_b_c` of C relative to B in frame A, by the pure
/// rotation `E_a_bᵗ`: `(E_a_bᵗ · ω, E_a_bᵗ · (v - 0 × ω))`.
pub fn transform_error_from<T: Scalar>(x_a_b: &PTransform<T>, v_b_c: &MotionVector<T>) -> (r: MotionVector<T>)
    requires
        total_ops::<T>(),
    ensures
        r.angular@ == mat_vec(x_a_b.rot_t(), v_b_c.angular@),
        r.linear@ == mat_vec(
            x_a_b.rot_t(),
            vsub(v_b_c.linear@, vcross(seq![szero::<T>(), szero::<T>(), szero::<T>()], v_b_c.angular@)),
        ),
{
    let back = PTransform::from_mat(transpose3(&x_a_b.rotation));
    back * *v_b_c
}

/// The translation part of an interpolation between two transforms:
/// `t · from + (1 - t) · to`.
pub fn interpolate_translation<T: Scalar>(from: &PTransform<T>, to: &PTransform<T>, t: T) -> (r: Vec3<T>)
    requires
        total_ops::<T>(),
    ensures
        r@ == vadd(vscale(t, from.translation@), vscale(ssub(sone::<T>(), t), to.translation@)),
{
    add3(&scale3(t, &from.translation), &scale3(one::<T>() - t, &to.translation))
}

} // verus!
