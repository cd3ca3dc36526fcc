use sva::{
    inertia_to_origin, interpolate_translation, relative_rotation, rot_x_sin_cos, rot_y_sin_cos,
    rot_z_sin_cos, rotation_cos_angle, rotation_error_from, rotation_velocity_from, ForceVector,
    MotionVector, PTransform, RBInertia,
};

const TOL: f64 = 0.00001;

fn close3(a: [f64; 3], b: [f64; 3]) -> bool {
    (0..3).all(|i| (a[i] - b[i]).abs() < TOL)
}

fn close33(a: [[f64; 3]; 3], b: [[f64; 3]; 3]) -> bool {
    (0..3).all(|i| close3(a[i], b[i]))
}

fn rx(theta: f64) -> [[f64; 3]; 3] {
    rot_x_sin_cos(theta.sin(), theta.cos())
}

fn ry(theta: f64) -> [[f64; 3]; 3] {
    rot_y_sin_cos(theta.sin(), theta.cos())
}

fn rz(theta: f64) -> [[f64; 3]; 3] {
    rot_z_sin_cos(theta.sin(), theta.cos())
}

fn mat_mul(a: [[f64; 3]; 3], b: [[f64; 3]; 3]) -> [[f64; 3]; 3] {
    let mut r = [[0.0; 3]; 3];
    for i in 0..3 {
        for j in 0..3 {
            for k in 0..3 {
                r[i][j] += a[i][k] * b[k][j];
            }
        }
    }
    r
}

const IDENTITY: [[f64; 3]; 3] = [[1.0, 0.0, 0.0], [0.0, 1.0, 0.0], [0.0, 0.0, 1.0]];

#[test]
fn elementary_rotation_signs() {
    let (s, c) = (0.6, 0.8);
    assert_eq!(rot_x_sin_cos(s, c), [[1.0, 0.0, 0.0], [0.0, 0.8, 0.6], [0.0, -0.6, 0.8]]);
    assert_eq!(rot_y_sin_cos(s, c), [[0.8, 0.0, -0.6], [0.0, 1.0, 0.0], [0.6, 0.0, 0.8]]);
    assert_eq!(rot_z_sin_cos(s, c), [[0.8, 0.6, 0.0], [-0.6, 0.8, 0.0], [0.0, 0.0, 1.0]]);
}

#[test]
fn identity_and_constructors() {
    let id = PTransform::<f64>::identity();
    assert_eq!(id.rotation, IDENTITY);
    assert_eq!(id.translation, [0.0; 3]);
    let t = PTransform::from_vec([1.0, 2.0, 3.0]);
    assert_eq!(t.rotation, IDENTITY);
    assert_eq!(t.translation, [1.0, 2.0, 3.0]);
    let r = PTransform::from_mat(rx(0.3));
    assert_eq!(r.rotation, rx(0.3));
    assert_eq!(r.translation, [0.0; 3]);
    let x = PTransform::from_mat_vec(ry(0.2), [4.0, 5.0, 6.0]);
    assert_eq!(x.rotation, ry(0.2));
    assert_eq!(x.translation, [4.0, 5.0, 6.0]);
}

#[test]
fn transform_times_inverse_is_identity() {
    let x = PTransform::from_mat_vec(mat_mul(rx(0.4), mat_mul(ry(-1.1), rz(2.3))), [0.5, -1.5, 2.0]);
    let p = x * x.inv();
    assert!(close33(p.rotation, IDENTITY));
    assert!(close3(p.translation, [0.0; 3]));
}

#[test]
fn composition_is_associative() {
    let x1 = PTransform::from_mat_vec(rx(0.7), [1.0, 0.0, -2.0]);
    let x2 = PTransform::from_mat_vec(ry(-0.3), [0.5, 3.0, 1.0]);
    let x3 = PTransform::from_mat_vec(rz(1.9), [-1.0, 2.0, 0.25]);
    let left = x1 * x2 * x3;
    let right = x1 * (x2 * x3);
    assert!(close33(left.rotation, right.rotation));
    assert!(close3(left.translation, right.translation));
}

#[test]
fn composition_exact_values() {
    // a quarter turn about z, then a translation
    let x1 = PTransform::from_mat_vec([[0.0, 1.0, 0.0], [-1.0, 0.0, 0.0], [0.0, 0.0, 1.0]], [1.0, 2.0, 3.0]);
    let x2 = PTransform::from_mat_vec([[1.0, 0.0, 0.0], [0.0, 0.0, 1.0], [0.0, -1.0, 0.0]], [-1.0, 0.0, 4.0]);
    let p = x1 * x2;
    assert_eq!(p.rotation, [[0.0, 0.0, 1.0], [-1.0, 0.0, 0.0], [0.0, -1.0, 0.0]]);
    // t2 + R2ᵗ t1 = (-1, 0, 4) + (1, -3, 2)
    assert_eq!(p.translation, [0.0, -3.0, 6.0]);
    let i = x1.inv();
    assert_eq!(i.rotation, [[0.0, -1.0, 0.0], [1.0, 0.0, 0.0], [0.0, 0.0, 1.0]]);
    // (-R) t = -(2, -1, 3)
    assert_eq!(i.translation, [-2.0, 1.0, -3.0]);
}

#[test]
fn motion_and_force_actions() {
    let x = PTransform::from_mat_vec([[0.0, 1.0, 0.0], [-1.0, 0.0, 0.0], [0.0, 0.0, 1.0]], [1.0, 0.0, 0.0]);
    let m = MotionVector::from_vectors([0.0, 0.0, 1.0], [1.0, 2.0, 3.0]);
    let xm = x * m;
    assert_eq!(xm.angular, [0.0, 0.0, 1.0]);
    // v - t x w = (1,2,3) - (0,-1,0) = (1,3,3); R (1,3,3) = (3,-1,3)
    assert_eq!(xm.linear, [3.0, -1.0, 3.0]);
    assert_eq!(x.angular_mul(&m), xm.angular);
    assert_eq!(x.linear_mul(&m), xm.linear);
    let back = x.inv_mul(&xm);
    assert!(close3(back.angular, m.angular));
    assert!(close3(back.linear, m.linear));
    assert_eq!(x.angular_inv_mul(&xm), back.angular);
    assert_eq!(x.linear_inv_mul(&xm), back.linear);

    let f = ForceVector::from_vectors([1.0, 2.0, 3.0], [0.0, 0.0, 1.0]);
    let xf = x.dual_mul(&f);
    assert_eq!(xf.force, [0.0, 0.0, 1.0]);
    assert_eq!(xf.couple, [3.0, -1.0, 3.0]);
    assert_eq!(x.couple_dual_mul(&f), xf.couple);
    assert_eq!(x.force_dual_mul(&f), xf.force);
    let fb = x.trans_mul(&xf);
    assert!(close3(fb.couple, f.couple));
    assert!(close3(fb.force, f.force));
    assert_eq!(x.couple_trans_mul(&xf), fb.couple);
    assert_eq!(x.force_trans_mul(&xf), fb.force);

    // power is frame independent
    assert!((xm.dot(xf) - m.dot(f)).abs() < TOL);
}

#[test]
fn six_by_six_forms() {
    let x = PTransform::from_mat_vec(rz(0.5), [1.0, -2.0, 0.5]);
    let m = x.matrix();
    let d = x.dual_matrix();
    let skew = sva::vector3_to_cross_matrix(&x.translation);
    for i in 0..3 {
        for j in 0..3 {
            assert_eq!(m[i][j], x.rotation[i][j]);
            assert_eq!(m[i + 3][j + 3], x.rotation[i][j]);
            assert_eq!(m[i][j + 3], 0.0);
            assert_eq!(d[i + 3][j], 0.0);
            assert_eq!(d[i][j], x.rotation[i][j]);
            assert_eq!(d[i][j + 3], m[i + 3][j]);
            let expected: f64 = (0..3).map(|k| -x.rotation[i][k] * skew[k][j]).sum();
            assert!((m[i + 3][j] - expected).abs() < TOL);
        }
    }
    // the 6x6 form acts as the product with a motion does
    let mv = MotionVector::from_vectors([0.3, -0.2, 0.9], [1.0, 4.0, -2.0]);
    let flat = mv.vector();
    let xm = (x * mv).vector();
    for i in 0..6 {
        let row: f64 = (0..6).map(|j| m[i][j] * flat[j]).sum();
        assert!((row - xm[i]).abs() < TOL);
    }
}

#[test]
fn rotation_velocity_parts() {
    let theta: f64 = 0.3;
    let e = rx(theta);
    let c = rotation_cos_angle(&e);
    assert!((c - theta.cos()).abs() < 1e-12);
    let sinc_inv = theta / theta.sin();
    let w = rotation_velocity_from(&e, sinc_inv);
    assert!(close3(w, [theta, 0.0, 0.0]));
    assert_eq!(rotation_cos_angle(&IDENTITY), 1.0);
    assert_eq!(rotation_velocity_from(&IDENTITY, 1.0), [0.0, 0.0, 0.0]);
    // the axis part is scaled by half the given factor
    assert_eq!(rotation_velocity_from(&[[0.0, 1.0, 0.0], [-1.0, 0.0, 0.0], [0.0, 0.0, 1.0]], 4.0), [0.0, 0.0, 4.0]);
}

#[test]
fn rotation_error_parts() {
    let e_a_b = rz(0.4);
    let e_a_c = mat_mul(ry(0.25), rz(0.4));
    let e_b_c = relative_rotation(&e_a_b, &e_a_c);
    assert!(close33(e_b_c, ry(0.25)));
    let w = rotation_error_from(&e_a_b, &[0.0, 0.25, 0.0]);
    let rt = [
        [e_a_b[0][0], e_a_b[1][0], e_a_b[2][0]],
        [e_a_b[0][1], e_a_b[1][1], e_a_b[2][1]],
        [e_a_b[0][2], e_a_b[1][2], e_a_b[2][2]],
    ];
    let expected = [rt[0][1] * 0.25, rt[1][1] * 0.25, rt[2][1] * 0.25];
    assert!(close3(w, expected));
}

#[test]
fn interpolated_translation_weights() {
    let from = PTransform::from_vec([2.0, 4.0, 8.0]);
    let to = PTransform::from_vec([-2.0, 0.0, 16.0]);
    assert_eq!(interpolate_translation(&from, &to, 0.25), [-1.0, 1.0, 14.0]);
    assert_eq!(interpolate_translation(&from, &to, 1.0), [2.0, 4.0, 8.0]);
    assert_eq!(interpolate_translation(&from, &to, 0.0), [-2.0, 0.0, 16.0]);
}

#[test]
fn inertia_lower_triangle_round_trip() {
    let m = [[1.0, 9.0, 8.0], [2.0, 3.0, 7.0], [4.0, 5.0, 6.0]];
    let rbi = RBInertia::new(2.5, [1.0, 2.0, 3.0], m);
    assert_eq!(rbi.mass, 2.5);
    assert_eq!(rbi.momentum, [1.0, 2.0, 3.0]);
    assert_eq!(rbi.lower_triangular_inertia(), [[1.0, 0.0, 0.0], [2.0, 3.0, 0.0], [4.0, 5.0, 6.0]]);
    let full = rbi.inertia();
    assert_eq!(full, [[1.0, 2.0, 4.0], [2.0, 3.0, 5.0], [4.0, 5.0, 6.0]]);
    for i in 0..3 {
        for j in 0..3 {
            assert_eq!(full[i][j], full[j][i]);
            if j <= i {
                assert_eq!(full[i][j], m[i][j]);
            }
        }
    }
    let kept = RBInertia::from_lower_triangle(1.0, [0.0; 3], [[1.0, 0.0, 0.0], [2.0, 3.0, 0.0], [4.0, 5.0, 6.0]]);
    assert_eq!(kept.inertia(), full);
}

#[test]
fn parallel_axis_inertia() {
    // a point mass of 2 at (1, 0, 0): I + m [c]x [c]xᵗ adds 2 on the y and z axes
    let i = inertia_to_origin(&[[1.0, 0.0, 0.0], [0.0, 1.0, 0.0], [0.0, 0.0, 1.0]], 2.0, &[1.0, 0.0, 0.0], &IDENTITY);
    assert_eq!(i, [[1.0, 0.0, 0.0], [0.0, 3.0, 0.0], [0.0, 0.0, 3.0]]);
    // rotated a quarter turn about z, the x and y axes swap
    let q = [[0.0, 1.0, 0.0], [-1.0, 0.0, 0.0], [0.0, 0.0, 1.0]];
    let r = inertia_to_origin(&[[1.0, 0.0, 0.0], [0.0, 1.0, 0.0], [0.0, 0.0, 1.0]], 2.0, &[1.0, 0.0, 0.0], &q);
    assert_eq!(r, [[3.0, 0.0, 0.0], [0.0, 1.0, 0.0], [0.0, 0.0, 3.0]]);
}

#[test]
fn articulated_inertia_holds_blocks() {
    let a = sva::ABInertia { M: IDENTITY, H: [[0.0; 3]; 3], I: [[2.0; 3]; 3] };
    let b = a;
    assert_eq!(a, b);
    assert_eq!(b.I[1][2], 2.0);
}

#[test]
fn transform_error_rotates_back() {
    let x_a_b = PTransform::from_mat_vec([[0.0, 1.0, 0.0], [-1.0, 0.0, 0.0], [0.0, 0.0, 1.0]], [5.0, 5.0, 5.0]);
    let v = MotionVector::from_vectors([1.0, 2.0, 3.0], [4.0, 5.0, 6.0]);
    let e = sva::transform_error_from(&x_a_b, &v);
    // Rᵗ = [[0, -1, 0], [1, 0, 0], [0, 0, 1]]
    assert_eq!(e.angular, [-2.0, 1.0, 3.0]);
    assert_eq!(e.linear, [-5.0, 4.0, 6.0]);
}
