use vstd::prelude::*;
use crate::scalar::{
    Scalar, ring, sadd, smul, sneg, szero, ax_add_assoc, ax_add_comm, ax_add_zero, ax_sub,
    lemma_mul_zero, lemma_neg_mul, lemma_neg_neg, lemma_neg_zero, lemma_neg_add, ax_mul_comm,
    ax_mul_assoc, ax_mul_one, ax_add_neg, sone, ax_distrib,
};
use crate::linalg::{
    vdot, dot_prefix, head3, tail3, vcross, vadd, vsub, vneg, vdiv, vscale, mat_vec, mat_mul, mneg, transpose,
};
use crate::utility::{cross_mat, cross_mat6, cross_dual_mat6};
use crate::motion_vec::{MotionVector, motion_cross, force_cross};
use vstd::std_specs::ops::{AddSpec, DivSpec, MulSpec, NegSpec, SubSpec};
use crate::force_vec::ForceVector;
use crate::impedance_vec::ImpedanceVector;
use crate::admittance_vec::AdmittanceVector;
use crate::ptransform::{PTransform, ident3, tf_mul, tf_inv, shalf, skew_axis, rot_x_mat};
use crate::linalg::lemma_view_arr;
use crate::rb_inertia::{lower_triangle, mirror_lower};

verus! {

/// A 6-D dot product splits into the dot products of the two 3-D blocks.
proof fn lemma_dot6_split<T: Scalar>(x: Seq<T>, y: Seq<T>)
    requires
        ring::<T>(),
        x.len() == 6,
        y.len() == 6,
    ensures
        vdot(x, y) == sadd(vdot(head3(x), head3(y)), vdot(tail3(x), tail3(y))),
{
    reveal_with_fuel(dot_prefix, 7);
    let h = sadd(sadd(smul(x[0], y[0]), smul(x[1], y[1])), smul(x[2], y[2]));
    let y3 = smul(x[3], y[3]);
    let y4 = smul(x[4], y[4]);
    let y5 = smul(x[5], y[5]);
    ax_add_assoc(h, sadd(y3, y4), y5);
    ax_add_assoc(h, y3, y4);
}

/// A row of zeros has a zero dot product with anything.
proof fn lemma_dot3_zero_row<T: Scalar>(x: Seq<T>, y: Seq<T>, z: T)
    requires
        ring::<T>(),
        x == seq![z, z, z],
        z == szero::<T>() || z == sneg(szero::<T>()),
    ensures
        vdot(x, y) == szero::<T>(),
{
    reveal_with_fuel(dot_prefix, 4);
    lemma_neg_zero::<T>();
    lemma_mul_zero(y[0]);
    lemma_mul_zero(y[1]);
    lemma_mul_zero(y[2]);
    ax_add_zero(szero::<T>());
}

/// Each row of `[w]×` dotted with `u` is an entry of `w × u`.
proof fn lemma_cross_mat_row<T: Scalar>(w: Seq<T>, u: Seq<T>, i: int)
    requires
        ring::<T>(),
        0 <= i < 3,
    ensures
        vdot(cross_mat(w)[i], u) == vcross(w, u)[i],
{
    reveal_with_fuel(dot_prefix, 4);
    let z = szero::<T>();
    lemma_mul_zero(u[0]);
    lemma_mul_zero(u[1]);
    lemma_mul_zero(u[2]);
    if i == 0 {
        lemma_neg_mul(w[2], u[1]);
        ax_add_zero(smul(sneg(w[2]), u[1]));
        ax_sub(smul(w[1], u[2]), smul(w[2], u[1]));
        ax_add_comm(smul(w[1], u[2]), sneg(smul(w[2], u[1])));
    } else if i == 1 {
        lemma_neg_mul(w[0], u[2]);
        ax_add_zero(smul(w[2], u[0]));
        ax_sub(smul(w[2], u[0]), smul(w[0], u[2]));
    } else {
        lemma_neg_mul(w[1], u[0]);
        ax_add_zero(sadd(smul(sneg(w[1]), u[0]), smul(w[0], u[1])));
        ax_sub(smul(w[0], u[1]), smul(w[1], u[0]));
        ax_add_comm(smul(w[0], u[1]), sneg(smul(w[1], u[0])));
    }
}

/// A skew-symmetric matrix is the negation of its transpose.
proof fn lemma_cross_mat_skew<T: Scalar>(w: Seq<T>)
    requires
        ring::<T>(),
    ensures
        mneg(transpose(cross_mat(w))) == cross_mat(w),
{
    lemma_neg_zero::<T>();
    lemma_neg_neg(w[0]);
    lemma_neg_neg(w[1]);
    lemma_neg_neg(w[2]);
    assert(mneg(transpose(cross_mat(w))) =~~= cross_mat(w));
}

/// The power pairing of a motion and a force, computed block by block, is
/// the dot product of their flat 6-vectors (in exact arithmetic).
pub proof fn lemma_dot_is_flat_dot<T: Scalar>(m: MotionVector<T>, f: ForceVector<T>)
    requires
        ring::<T>(),
    ensures
        sadd(vdot(m.angular@, f.couple@), vdot(m.linear@, f.force@)) == vdot(m@, f@),
{
    lemma_dot6_split(m@, f@);
    assert(head3(m@) =~= m.angular@);
    assert(tail3(m@) =~= m.linear@);
    assert(head3(f@) =~= f.couple@);
    assert(tail3(f@) =~= f.force@);
}

/// The spatial cross product of two motions is the product of the first's
/// 6×6 cross matrix with the second (in exact arithmetic).
pub proof fn lemma_cross_is_matrix_product<T: Scalar>(a: Seq<T>, b: Seq<T>)
    requires
        ring::<T>(),
        a.len() == 6,
        b.len() == 6,
    ensures
        motion_cross(a, b) == mat_vec(cross_mat6(a), b),
{
    let w = head3(a);
    let v = tail3(a);
    let m = cross_mat6(a);
    assert forall|i: int| 0 <= i < 6 implies #[trigger] motion_cross(a, b)[i] == mat_vec(m, b)[i] by {
        lemma_dot6_split(m[i], b);
        if i < 3 {
            assert(head3(m[i]) =~= cross_mat(w)[i]);
            assert(tail3(m[i]) =~= seq![szero::<T>(), szero::<T>(), szero::<T>()]);
            lemma_dot3_zero_row(tail3(m[i]), tail3(b), szero::<T>());
            lemma_cross_mat_row(w, head3(b), i);
            ax_add_zero(vdot(head3(m[i]), head3(b)));
        } else {
            assert(head3(m[i]) =~= cross_mat(v)[i - 3]);
            assert(tail3(m[i]) =~= cross_mat(w)[i - 3]);
            lemma_cross_mat_row(v, head3(b), i - 3);
            lemma_cross_mat_row(w, tail3(b), i - 3);
            ax_add_comm(vcross(v, head3(b))[i - 3], vcross(w, tail3(b))[i - 3]);
        }
    }
    assert(motion_cross(a, b) =~= mat_vec(m, b));
}

/// The action of a motion on a force is the product of the motion's dual
/// 6×6 cross matrix with the force (in exact arithmetic).
pub proof fn lemma_cross_dual_is_matrix_product<T: Scalar>(a: Seq<T>, f: Seq<T>)
    requires
        ring::<T>(),
        a.len() == 6,
        f.len() == 6,
    ensures
        force_cross(a, f) == mat_vec(cross_dual_mat6(a), f),
{
    let w = head3(a);
    let v = tail3(a);
    let m = cross_dual_mat6(a);
    lemma_cross_mat_skew(w);
    lemma_cross_mat_skew(v);
    assert forall|i: int| 0 <= i < 6 implies #[trigger] force_cross(a, f)[i] == mat_vec(m, f)[i] by {
        lemma_dot6_split(m[i], f);
        if i < 3 {
            assert(head3(m[i]) =~= mneg(transpose(cross_mat(w)))[i]);
            assert(tail3(m[i]) =~= mneg(transpose(cross_mat(v)))[i]);
            lemma_cross_mat_row(w, head3(f), i);
            lemma_cross_mat_row(v, tail3(f), i);
        } else {
            assert(head3(m[i]) =~= seq![sneg(szero::<T>()), sneg(szero::<T>()), sneg(szero::<T>())]);
            assert(tail3(m[i]) =~= mneg(transpose(cross_mat(w)))[i - 3]);
            lemma_dot3_zero_row(head3(m[i]), head3(f), sneg(szero::<T>()));
            lemma_cross_mat_row(w, tail3(f), i - 3);
            ax_add_zero(vdot(tail3(m[i]), tail3(f)));
        }
    }
    assert(force_cross(a, f) =~= mat_vec(m, f));
}

/// Flattening a motion vector commutes with the vector-space operations:
/// `a + b`, `a - b`, `-a`, `a * s` and `a / s` flatten to the same operation,
/// entry by entry, on the flat 6-vectors.
pub proof fn lemma_flatten_linear<T: Scalar>(a: MotionVector<T>, b: MotionVector<T>, s: T)
    ensures
        a.add_spec(b)@ == vadd(a@, b@),
        a.sub_spec(b)@ == vsub(a@, b@),
        a.neg_spec()@ == vneg(a@),
        a.mul_spec(s)@ == vscale(s, a@),
        a.div_spec(s)@ == vdiv(a@, s),
{
    assert(a.add_spec(b)@ =~= vadd(a@, b@));
    assert(a.sub_spec(b)@ =~= vsub(a@, b@));
    assert(a.neg_spec()@ =~= vneg(a@));
    assert(a.mul_spec(s)@ =~= vscale(s, a@));
    assert(a.div_spec(s)@ =~= vdiv(a@, s));
}

/// An impedance gives the same force whichever side of the motion it
/// multiplies: `z * m == m * z`.
pub proof fn lemma_impedance_commutes<T: Scalar>(z: ImpedanceVector<T>, m: MotionVector<T>)
    requires
        ring::<T>(),
    ensures
        z.mul_spec(m) == m.mul_spec(z),
{
    ax_mul_comm(z.angular[0], m.angular[0]);
    ax_mul_comm(z.angular[1], m.angular[1]);
    ax_mul_comm(z.angular[2], m.angular[2]);
    ax_mul_comm(z.linear[0], m.linear[0]);
    ax_mul_comm(z.linear[1], m.linear[1]);
    ax_mul_comm(z.linear[2], m.linear[2]);
    assert(z.mul_spec(m).couple =~= m.mul_spec(z).couple);
    assert(z.mul_spec(m).force =~= m.mul_spec(z).force);
}

/// The admittance whose gains are the reciprocals of an impedance's undoes
/// it: `y * (z * m) == m`.
pub proof fn lemma_admittance_undoes_impedance<T: Scalar>(
    y: AdmittanceVector<T>,
    z: ImpedanceVector<T>,
    m: MotionVector<T>,
)
    requires
        ring::<T>(),
        forall|i: int| 0 <= i < 6 ==> #[trigger] smul(y@[i], z@[i]) == sone::<T>(),
    ensures
        y.mul_spec(z.mul_spec(m)) == m,
{
    assert forall|i: int| 0 <= i < 3 implies #[trigger] smul(y.angular[i], smul(z.angular[i], m.angular[i])) == m.angular[i] by {
        assert(smul(y@[i], z@[i]) == sone::<T>());
        ax_mul_assoc(y.angular[i], z.angular[i], m.angular[i]);
        ax_mul_one(m.angular[i]);
    }
    assert forall|i: int| 0 <= i < 3 implies #[trigger] smul(y.linear[i], smul(z.linear[i], m.linear[i])) == m.linear[i] by {
        assert(smul(y@[i + 3], z@[i + 3]) == sone::<T>());
        ax_mul_assoc(y.linear[i], z.linear[i], m.linear[i]);
        ax_mul_one(m.linear[i]);
    }
    assert(y.mul_spec(z.mul_spec(m)).angular =~= m.angular);
    assert(y.mul_spec(z.mul_spec(m)).linear =~= m.linear);
}

/// `-r · t + r · t == 0` for 3-vectors.
proof fn lemma_dot3_neg_cancel<T: Scalar>(r: Seq<T>, t: Seq<T>)
    requires
        ring::<T>(),
        r.len() == 3,
    ensures
        sadd(vdot(vneg(r), t), vdot(r, t)) == szero::<T>(),
{
    reveal_with_fuel(dot_prefix, 4);
    let p0 = smul(r[0], t[0]);
    let p1 = smul(r[1], t[1]);
    let p2 = smul(r[2], t[2]);
    lemma_neg_mul(r[0], t[0]);
    lemma_neg_mul(r[1], t[1]);
    lemma_neg_mul(r[2], t[2]);
    lemma_neg_add(p0, p1);
    lemma_neg_add(sadd(p0, p1), p2);
    ax_add_neg(sadd(sadd(p0, p1), p2));
}

/// A transform composed with its inverse is the identity, for a rotation
/// with `R · Rᵗ == I`.
pub proof fn lemma_compose_inverse<T: Scalar>(x: PTransform<T>)
    requires
        ring::<T>(),
        mat_mul(x.rot(), x.rot_t()) == ident3::<T>(),
    ensures
        x.mul_spec(x.inv_spec())@ == (ident3::<T>(), seq![szero::<T>(), szero::<T>(), szero::<T>()]),
{
    let r = x.rot();
    let t = x.translation@;
    lemma_view_arr(tf_inv(x@).1, tf_inv(x@).0);
    assert(x.inv_spec()@ == tf_inv(x@));
    assert(transpose(transpose(r)) =~~= r);
    let tr = tf_mul(x@, tf_inv(x@)).1;
    assert forall|i: int| 0 <= i < 3 implies #[trigger] tr[i] == szero::<T>() by {
        assert(mneg(r)[i] == vneg(r[i]));
        lemma_dot3_neg_cancel(r[i], t);
    }
    assert(tr =~= seq![szero::<T>(), szero::<T>(), szero::<T>()]);
    lemma_view_arr(tr, tf_mul(x@, tf_inv(x@)).0);
}

/// Keeping the lower triangle of any matrix and mirroring it gives a
/// symmetric matrix with that same lower triangle.
pub proof fn lemma_inertia_round_trip<T: Scalar>(m: Seq<Seq<T>>)
    ensures
        forall|i: int, j: int|
            0 <= i < 3 && 0 <= j < 3 ==> #[trigger] mirror_lower(lower_triangle(m))[i][j]
                == mirror_lower(lower_triangle(m))[j][i],
        forall|i: int, j: int|
            0 <= j <= i < 3 ==> #[trigger] mirror_lower(lower_triangle(m))[i][j] == m[i][j],
{
}

/// A left-to-right sum of three.
spec fn s3<T: Scalar>(a: T, b: T, c: T) -> T {
    sadd(sadd(a, b), c)
}

proof fn lemma_swap4<T: Scalar>(a: T, b: T, c: T, d: T)
    requires
        ring::<T>(),
    ensures
        sadd(sadd(a, b), sadd(c, d)) == sadd(sadd(a, c), sadd(b, d)),
{
    ax_add_assoc(a, b, sadd(c, d));
    ax_add_assoc(b, c, d);
    ax_add_comm(b, c);
    ax_add_assoc(c, b, d);
    ax_add_assoc(a, c, sadd(b, d));
}

proof fn lemma_s3_add<T: Scalar>(a: T, b: T, c: T, d: T, e: T, f: T)
    requires
        ring::<T>(),
    ensures
        sadd(s3(a, b, c), s3(d, e, f)) == s3(sadd(a, d), sadd(b, e), sadd(c, f)),
{
    lemma_swap4(sadd(a, b), c, sadd(d, e), f);
    lemma_swap4(a, b, d, e);
}

/// Summing a 3×3 array of terms row by row or column by column gives the same.
proof fn lemma_sum9<T: Scalar>(t: Seq<Seq<T>>)
    requires
        ring::<T>(),
    ensures
        s3(s3(t[0][0], t[0][1], t[0][2]), s3(t[1][0], t[1][1], t[1][2]), s3(t[2][0], t[2][1], t[2][2]))
            == s3(s3(t[0][0], t[1][0], t[2][0]), s3(t[0][1], t[1][1], t[2][1]), s3(t[0][2], t[1][2], t[2][2])),
{
    lemma_s3_add(t[0][0], t[0][1], t[0][2], t[1][0], t[1][1], t[1][2]);
    lemma_s3_add(
        sadd(t[0][0], t[1][0]),
        sadd(t[0][1], t[1][1]),
        sadd(t[0][2], t[1][2]),
        t[2][0],
        t[2][1],
        t[2][2],
    );
}

proof fn lemma_mul_s3<T: Scalar>(x: T, a: T, b: T, c: T)
    requires
        ring::<T>(),
    ensures
        smul(x, s3(a, b, c)) == s3(smul(x, a), smul(x, b), smul(x, c)),
        smul(s3(a, b, c), x) == s3(smul(a, x), smul(b, x), smul(c, x)),
{
    ax_distrib(x, sadd(a, b), c);
    ax_distrib(x, a, b);
}

proof fn lemma_dot3<T: Scalar>(a: Seq<T>, b: Seq<T>)
    requires
        a.len() == 3,
    ensures
        vdot(a, b) == s3(smul(a[0], b[0]), smul(a[1], b[1]), smul(a[2], b[2])),
{
    reveal_with_fuel(dot_prefix, 4);
}

proof fn lemma_dot3_comm<T: Scalar>(a: Seq<T>, b: Seq<T>)
    requires
        ring::<T>(),
        a.len() == 3,
        b.len() == 3,
    ensures
        vdot(a, b) == vdot(b, a),
{
    lemma_dot3(a, b);
    lemma_dot3(b, a);
    ax_mul_comm(a[0], b[0]);
    ax_mul_comm(a[1], b[1]);
    ax_mul_comm(a[2], b[2]);
}

proof fn lemma_dot3_add<T: Scalar>(x: Seq<T>, y: Seq<T>, z: Seq<T>)
    requires
        ring::<T>(),
        x.len() == 3,
        y.len() == 3,
    ensures
        vdot(x, vadd(y, z)) == sadd(vdot(x, y), vdot(x, z)),
{
    lemma_dot3(x, vadd(y, z));
    lemma_dot3(x, y);
    lemma_dot3(x, z);
    ax_distrib(x[0], y[0], z[0]);
    ax_distrib(x[1], y[1], z[1]);
    ax_distrib(x[2], y[2], z[2]);
    lemma_s3_add(
        smul(x[0], y[0]),
        smul(x[1], y[1]),
        smul(x[2], y[2]),
        smul(x[0], z[0]),
        smul(x[1], z[1]),
        smul(x[2], z[2]),
    );
}

/// `x · (M y) == (Mᵗ x) · y` for a 3×3 `M`.
proof fn lemma_bilinear_swap<T: Scalar>(x: Seq<T>, m: Seq<Seq<T>>, y: Seq<T>)
    requires
        ring::<T>(),
        x.len() == 3,
        m.len() == 3,
        forall|i: int| 0 <= i < 3 ==> #[trigger] m[i].len() == 3,
    ensures
        vdot(x, mat_vec(m, y)) == vdot(mat_vec(transpose(m), x), y),
{
    let mt = transpose(m);
    lemma_dot3(x, mat_vec(m, y));
    lemma_dot3(mat_vec(mt, x), y);
    let t = Seq::new(3, |i: int| Seq::new(3, |j: int| smul(x[i], smul(m[i][j], y[j]))));
    assert forall|i: int| 0 <= i < 3 implies #[trigger] smul(x[i], mat_vec(m, y)[i]) == s3(t[i][0], t[i][1], t[i][2]) by {
        lemma_dot3(m[i], y);
        lemma_mul_s3(x[i], smul(m[i][0], y[0]), smul(m[i][1], y[1]), smul(m[i][2], y[2]));
    }
    assert forall|j: int| 0 <= j < 3 implies #[trigger] smul(mat_vec(mt, x)[j], y[j]) == s3(t[0][j], t[1][j], t[2][j]) by {
        lemma_dot3(mt[j], x);
        lemma_mul_s3(y[j], smul(m[0][j], x[0]), smul(m[1][j], x[1]), smul(m[2][j], x[2]));
        ax_mul_comm(mat_vec(mt, x)[j], y[j]);
        assert forall|i: int| 0 <= i < 3 implies #[trigger] smul(smul(m[i][j], x[i]), y[j]) == t[i][j] by {
            ax_mul_comm(m[i][j], x[i]);
            ax_mul_assoc(x[i], m[i][j], y[j]);
        }
        lemma_mul_s3(y[j], smul(m[0][j], x[0]), smul(m[1][j], x[1]), smul(m[2][j], x[2]));
        ax_mul_comm(y[j], smul(m[0][j], x[0]));
        ax_mul_comm(y[j], smul(m[1][j], x[1]));
        ax_mul_comm(y[j], smul(m[2][j], x[2]));
    }
    lemma_sum9(t);
}

proof fn lemma_tf_mul_assoc<T: Scalar>(x1: PTransform<T>, x2: PTransform<T>, x3: PTransform<T>)
    requires
        ring::<T>(),
    ensures
        tf_mul(tf_mul(x1@, x2@), x3@) == tf_mul(x1@, tf_mul(x2@, x3@)),
{
    let a = x1.rot();
    let b = x2.rot();
    let c = x3.rot();
    let bt = transpose(b);
    let ct = transpose(c);
    assert(transpose(bt) =~~= b);
    let left = tf_mul(tf_mul(x1@, x2@), x3@);
    let right = tf_mul(x1@, tf_mul(x2@, x3@));
    assert forall|i: int, j: int| 0 <= i < 3 && 0 <= j < 3 implies #[trigger] left.0[i][j] == right.0[i][j] by {
        assert forall|k: int| 0 <= k < 3 implies #[trigger] mat_mul(a, b)[i][k] == mat_vec(bt, a[i])[k] by {
            lemma_dot3_comm(a[i], bt[k]);
        }
        assert(mat_mul(a, b)[i] =~= mat_vec(bt, a[i]));
        assert(transpose(mat_mul(b, c))[j] =~= mat_vec(b, ct[j]));
        lemma_bilinear_swap(a[i], b, ct[j]);
    }
    assert(left.0 =~~= right.0);
    let (t1, t2, t3) = (x1.translation@, x2.translation@, x3.translation@);
    assert forall|k: int| 0 <= k < 3 implies #[trigger] left.1[k] == right.1[k] by {
        lemma_dot3_add(ct[k], t2, mat_vec(bt, t1));
        assert(transpose(mat_mul(b, c))[k] =~= mat_vec(b, ct[k]));
        lemma_bilinear_swap(ct[k], bt, t1);
        ax_add_assoc(t3[k], vdot(ct[k], t2), vdot(ct[k], mat_vec(bt, t1)));
    }
    assert(left.1 =~= right.1);
}

/// The product of two transforms reads back as their composition.
proof fn lemma_mul_view<T: Scalar>(x: PTransform<T>, y: PTransform<T>)
    ensures
        x.mul_spec(y)@ == tf_mul(x@, y@),
{
    lemma_view_arr(tf_mul(x@, y@).1, tf_mul(x@, y@).0);
}

/// Composition of transforms is associative (in exact arithmetic):
/// `(x1 * x2) * x3 == x1 * (x2 * x3)`.
pub proof fn lemma_compose_assoc<T: Scalar>(x1: PTransform<T>, x2: PTransform<T>, x3: PTransform<T>)
    requires
        ring::<T>(),
    ensures
        x1.mul_spec(x2).mul_spec(x3) == x1.mul_spec(x2.mul_spec(x3)),
{
    lemma_mul_view(x1, x2);
    lemma_mul_view(x2, x3);
    lemma_tf_mul_assoc(x1, x2, x3);
}

/// Whatever the `sinc⁻¹` factor `k`, the rotation velocity of the identity is
/// zero, and that of an elementary rotation about x lies along x, with
/// length `(k / 2) · (s + s)` for `s = sin θ` (in exact arithmetic).
pub proof fn lemma_rotation_velocity_axes<T: Scalar>(s: T, c: T, k: T)
    requires
        ring::<T>(),
    ensures
        vscale(smul(k, shalf::<T>()), skew_axis(ident3::<T>())) == seq![
            szero::<T>(),
            szero::<T>(),
            szero::<T>(),
        ],
        vscale(smul(k, shalf::<T>()), skew_axis(rot_x_mat(s, c))) == seq![
            smul(smul(k, shalf::<T>()), sadd(s, s)),
            szero::<T>(),
            szero::<T>(),
        ],
{
    let f = smul(k, shalf::<T>());
    lemma_neg_zero::<T>();
    ax_add_zero(szero::<T>());
    lemma_mul_zero(f);
    lemma_neg_neg(s);
    assert(vscale(f, skew_axis(ident3::<T>())) =~= seq![szero::<T>(), szero::<T>(), szero::<T>()]);
    assert(vscale(f, skew_axis(rot_x_mat(s, c))) =~= seq![smul(f, sadd(s, s)), szero::<T>(), szero::<T>()]);
}

} // verus!
