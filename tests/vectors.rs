use sva::{
    vector6_to_cross_dual_matrix, vector6_to_cross_matrix, AdmittanceVector, ForceVector,
    ImpedanceVector, MotionVector,
};

const TOL: f64 = 0.00001;

/// A fixed pseudo-random sequence in [-1, 1), different for each seed.
fn rand_vec<const N: usize>(seed: u64) -> [f64; N] {
    let mut state = seed.wrapping_mul(6364136223846793005).wrapping_add(1442695040888963407);
    let mut out = [0.0; N];
    for x in out.iter_mut() {
        state = state.wrapping_mul(6364136223846793005).wrapping_add(1442695040888963407);
        *x = ((state >> 11) as f64) / ((1u64 << 53) as f64) * 2.0 - 1.0;
    }
    out
}

fn rand3(seed: u64) -> [f64; 3] {
    rand_vec::<3>(seed)
}

fn scale6(s: f64, m: [f64; 6]) -> [f64; 6] {
    m.map(|x| s * x)
}

fn div6(m: [f64; 6], s: f64) -> [f64; 6] {
    m.map(|x| x / s)
}

fn neg6(m: [f64; 6]) -> [f64; 6] {
    m.map(|x| -x)
}

fn add6(a: [f64; 6], b: [f64; 6]) -> [f64; 6] {
    let mut r = a;
    for i in 0..6 {
        r[i] = a[i] + b[i];
    }
    r
}

fn sub6(a: [f64; 6], b: [f64; 6]) -> [f64; 6] {
    let mut r = a;
    for i in 0..6 {
        r[i] = a[i] - b[i];
    }
    r
}

fn norm6(a: [f64; 6]) -> f64 {
    a.iter().map(|x| x * x).sum::<f64>().sqrt()
}

fn mat6_vec(m: &[[f64; 6]; 6], v: &[f64; 6]) -> [f64; 6] {
    let mut r = [0.0; 6];
    for i in 0..6 {
        for j in 0..6 {
            r[i] += m[i][j] * v[j];
        }
    }
    r
}

fn cmul3(a: [f64; 3], b: [f64; 3]) -> [f64; 3] {
    [a[0] * b[0], a[1] * b[1], a[2] * b[2]]
}

#[test]
fn it_works() {
    let mut mvec1 = MotionVector::<f64>::new();
    let mut mvec2 = MotionVector::<f64>::zero();
    mvec1.angular[0] = 1.;
    mvec2.linear[2] = -1.;
    println!("{:?}", mvec1);
    println!("{:?}", mvec2);
    println!("{:?}", mvec1 + mvec2);
    assert_eq!(2 + 2, 4);
}

#[test]
fn motion_sum_scenario() {
    let a = MotionVector::from_vectors([1.0, 0.0, 0.0], [0.0, 0.0, 0.0]);
    let b = MotionVector::from_vectors([0.0, 0.0, 0.0], [0.0, 0.0, -1.0]);
    assert_eq!(a + b, MotionVector::from_vectors([1.0, 0.0, 0.0], [0.0, 0.0, -1.0]));
}

#[test]
fn motion_vector_test() {
    let w = rand3(1);
    let v = rand3(2);

    let vec = MotionVector::from_vectors(w, v);
    let m = vec.vector();

    assert_eq!(w, vec.angular);
    assert_eq!(v, vec.linear);
    assert_eq!(
        m,
        [vec.angular[0], vec.angular[1], vec.angular[2], vec.linear[0], vec.linear[1], vec.linear[2]]
    );

    // alpha*M and M*alpha
    assert_eq!((vec * 5.).vector(), scale6(5., m));
    // M/alpha
    assert_eq!((vec / 5.).vector(), div6(m, 5.));
    // -M
    assert_eq!((-vec).vector(), neg6(m));

    let w2 = rand3(3);
    let v2 = rand3(4);
    let vec2 = MotionVector::from_vectors(w2, v2);
    let m2 = vec2.vector();

    assert_eq!((vec + vec2).vector(), add6(m, m2));
    assert_eq!((vec - vec2).vector(), sub6(m, m2));

    let mut vec_pluseq = vec;
    vec_pluseq.add_assign(vec2);
    assert_eq!(vec_pluseq, vec + vec2);

    let mut vec_minuseq = vec;
    vec_minuseq.sub_assign(vec2);
    assert_eq!(vec_minuseq, vec - vec2);

    assert_eq!(vec, vec);
    assert_ne!(vec, -vec);
    assert!(vec != (-vec));
    assert!(!(vec != vec));

    assert_eq!(MotionVector::<f64>::zero().vector(), [0.0; 6]);
}

#[test]
fn force_vector_test() {
    let n = rand3(5);
    let f = rand3(6);

    let vec = ForceVector::from_vectors(n, f);
    let m = vec.vector();

    assert_eq!(n, vec.couple);
    assert_eq!(f, vec.force);
    assert_eq!(
        m,
        [vec.couple[0], vec.couple[1], vec.couple[2], vec.force[0], vec.force[1], vec.force[2]]
    );

    assert_eq!((vec * 5.).vector(), scale6(5., m));
    assert_eq!((vec / 5.).vector(), div6(m, 5.));
    assert_eq!((-vec).vector(), neg6(m));

    let n2 = rand3(7);
    let f2 = rand3(8);
    let vec2 = ForceVector::from_vectors(n2, f2);
    let m2 = vec2.vector();

    assert_eq!((vec + vec2).vector(), add6(m, m2));
    assert_eq!((vec - vec2).vector(), sub6(m, m2));

    let mut vec_pluseq = vec;
    vec_pluseq.add_assign(vec2);
    assert_eq!(vec_pluseq, vec + vec2);

    let mut vec_minuseq = vec;
    vec_minuseq.sub_assign(vec2);
    assert_eq!(vec_minuseq, vec - vec2);

    assert_eq!(vec, vec);
    assert_ne!(vec, -vec);
    assert!(vec != (-vec));
    assert!(!(vec != vec));

    assert_eq!(ForceVector::<f64>::zero().vector(), [0.0; 6]);
}

#[test]
fn motion_vector_left_operators_test() {
    let w = rand3(9).map(|x| x * 100.);
    let v = rand3(10).map(|x| x * 100.);
    let n = rand3(11).map(|x| x * 100.);
    let f = rand3(12).map(|x| x * 100.);

    let m_vec = MotionVector::from_vectors(w, v);
    let f_vec = ForceVector::from_vectors(n, f);
    let mm = m_vec.vector();
    let mf = f_vec.vector();

    // dot(MotionVector, ForceVector)
    let flat_dot: f64 = (0..6).map(|i| mm[i] * mf[i]).sum();
    assert!((m_vec.dot(f_vec) - flat_dot).abs() < TOL);

    // cross(MotionVector, MotionVector)
    let w2 = rand3(13).map(|x| x * 100.);
    let v2 = rand3(14).map(|x| x * 100.);
    let m_vec2 = MotionVector::from_vectors(w2, v2);
    let mm2 = m_vec2.vector();

    let cross_m = m_vec.cross(m_vec2);
    assert!(norm6(sub6(cross_m.vector(), mat6_vec(&vector6_to_cross_matrix(&mm), &mm2))) < TOL);

    // cross_dual(MotionVector, ForceVector)
    let cross_f = m_vec.cross_dual(f_vec);
    assert!(
        norm6(sub6(cross_f.vector(), mat6_vec(&vector6_to_cross_dual_matrix(&mm), &mf))) < TOL
    );
}

#[test]
fn impedance_vector_test() {
    let w = rand3(15);
    let v = rand3(16);

    let vec = ImpedanceVector::from_vectors(w, v);
    let z = vec.vector();

    assert_eq!(w, vec.angular);
    assert_eq!(v, vec.linear);
    assert_eq!(
        z,
        [vec.angular[0], vec.angular[1], vec.angular[2], vec.linear[0], vec.linear[1], vec.linear[2]]
    );

    assert_eq!((vec * 5.).vector(), scale6(5., z));
    assert_eq!((vec / 5.).vector(), div6(z, 5.));

    assert_eq!(vec, vec);
    assert_ne!(vec, -vec);
    assert!(vec != (-vec));
    assert!(!(vec != vec));

    let mut vec_tmp = vec;
    assert_eq!(vec, vec_tmp);

    vec_tmp.mul_assign(5.);
    assert_eq!(vec_tmp.vector(), scale6(5., z));

    vec_tmp.div_assign(5.);
    assert!(norm6((vec_tmp - vec).vector()) < TOL);

    assert_eq!((-vec).vector(), neg6(z));

    let w2 = rand3(17);
    let v2 = rand3(18);
    let vec2 = ImpedanceVector::from_vectors(w2, v2);
    let z2 = vec2.vector();

    assert_eq!((vec + vec2).vector(), add6(z, z2));
    assert_eq!((vec - vec2).vector(), sub6(z, z2));

    let mut vec_pluseq = vec;
    vec_pluseq.add_assign(vec2);
    assert_eq!(vec_pluseq, vec + vec2);

    let mut vec_minuseq = vec;
    vec_minuseq.sub_assign(vec2);
    assert_eq!(vec_minuseq, vec - vec2);

    // impedance times motion
    let mv = MotionVector::from_vector(rand_vec::<6>(19));
    let fv = vec * mv;
    assert_eq!(fv.force, cmul3(vec.linear, mv.linear));
    assert_eq!(fv.couple, cmul3(vec.angular, mv.angular));

    let fv2 = mv * vec;
    assert_eq!(fv, fv2);

    // homogeneous constructor
    let hiv = ImpedanceVector::from_scalars(11., 42.);
    assert_eq!(hiv.angular, [11.; 3]);
    assert_eq!(hiv.linear, [42.; 3]);

    assert_eq!(ImpedanceVector::<f64>::zero().vector(), [0.0; 6]);
}

#[test]
fn admittance_vector_test() {
    let w = rand3(20);
    let v = rand3(21);

    let vec = AdmittanceVector::from_vectors(w, v);
    let a = vec.vector();

    assert_eq!(w, vec.angular);
    assert_eq!(v, vec.linear);
    assert_eq!(
        a,
        [vec.angular[0], vec.angular[1], vec.angular[2], vec.linear[0], vec.linear[1], vec.linear[2]]
    );

    assert_eq!((vec * 5.).vector(), scale6(5., a));
    assert_eq!((vec / 5.).vector(), div6(a, 5.));

    assert_eq!(vec, vec);
    assert_ne!(vec, -vec);
    assert!(vec != (-vec));
    assert!(!(vec != vec));

    let mut vec_tmp = vec;
    assert_eq!(vec, vec_tmp);

    vec_tmp.mul_assign(5.);
    assert_eq!(vec_tmp.vector(), scale6(5., a));

    vec_tmp.div_assign(5.);
    assert!(norm6((vec_tmp - vec).vector()) < TOL);

    assert_eq!((-vec).vector(), neg6(a));

    let w2 = rand3(22);
    let v2 = rand3(23);
    let vec2 = AdmittanceVector::from_vectors(w2, v2);
    let a2 = vec2.vector();

    assert_eq!((vec + vec2).vector(), add6(a, a2));
    assert_eq!((vec - vec2).vector(), sub6(a, a2));

    let mut vec_pluseq = vec;
    vec_pluseq.add_assign(vec2);
    assert_eq!(vec_pluseq, vec + vec2);

    let mut vec_minuseq = vec;
    vec_minuseq.sub_assign(vec2);
    assert_eq!(vec_minuseq, vec - vec2);

    // admittance times force
    let fv = ForceVector::from_vector(rand_vec::<6>(24));
    let mv = vec * fv;
    assert_eq!(mv.linear, cmul3(vec.linear, fv.force));
    assert_eq!(mv.angular, cmul3(vec.angular, fv.couple));

    let mv2 = fv * vec;
    assert_eq!(mv, mv2);

    // homogeneous constructor
    let hav = AdmittanceVector::from_scalars(11., 42.);
    assert_eq!(hav.angular, [11.; 3]);
    assert_eq!(hav.linear, [42.; 3]);

    assert_eq!(AdmittanceVector::<f64>::zero().vector(), [0.0; 6]);
}

#[test]
fn cross_products_exact_values() {
    let a = MotionVector::from_vectors([1.0, 2.0, 3.0], [4.0, 5.0, 6.0]);
    let b = MotionVector::from_vectors([-1.0, 0.5, 2.0], [3.0, -2.0, 1.0]);
    let c = a.cross(b);
    // (1,2,3) x (-1,0.5,2) = (2.5, -5, 2.5)
    assert_eq!(c.angular, [2.5, -5.0, 2.5]);
    // (1,2,3) x (3,-2,1) + (4,5,6) x (-1,0.5,2) = (8,8,-8) + (7,-14,7)
    assert_eq!(c.linear, [15.0, -6.0, -1.0]);

    let f = ForceVector::from_vectors([3.0, -2.0, 1.0], [-1.0, 0.5, 2.0]);
    let d = a.cross_dual(f);
    // (1,2,3) x (3,-2,1) + (4,5,6) x (-1,0.5,2) = (8,8,-8) + (7,-14,7)
    assert_eq!(d.couple, [15.0, -6.0, -1.0]);
    // (1,2,3) x (-1,0.5,2)
    assert_eq!(d.force, [2.5, -5.0, 2.5]);

    // 1*3 + 2*(-2) + 3*1 + 4*(-1) + 5*0.5 + 6*2 = 12.5
    assert_eq!(a.dot(f), 12.5);
}

#[test]
fn admittance_undoes_impedance() {
    let z = ImpedanceVector::from_vectors([2.0, 4.0, 8.0], [0.5, 0.25, 16.0]);
    let y = AdmittanceVector::from_vectors([0.5, 0.25, 0.125], [2.0, 4.0, 0.0625]);
    let m = MotionVector::from_vectors([1.5, -3.0, 7.0], [0.75, 9.0, -2.5]);
    let f = z * m;
    assert_eq!(f, m * z);
    assert_eq!(f.couple, [3.0, -12.0, 56.0]);
    assert_eq!(y * f, m);
}

#[test]
fn impedance_cross_and_dot() {
    let z = ImpedanceVector::from_scalars(2.0, 3.0);
    let z2 = ImpedanceVector::from_vectors([1.0, 0.0, 0.0], [0.0, 1.0, 0.0]);
    let c = z.cross(z2);
    assert_eq!(c.angular, [0.0, 2.0, -2.0]);
    // (2,2,2) x (0,1,0) + (3,3,3) x (1,0,0) = (-2,0,2) + (0,3,-3)
    assert_eq!(c.linear, [-2.0, 3.0, -1.0]);
    let f = ForceVector::from_vectors([1.0, 1.0, 1.0], [1.0, 0.0, 0.0]);
    assert_eq!(z.dot(f), 9.0);

    let y = AdmittanceVector::from_scalars(1.0, -1.0);
    let d = y.cross_dual(f);
    // (1,1,1) x (1,1,1) + (-1,-1,-1) x (1,0,0) = 0 + (0,-1,1)
    assert_eq!(d.couple, [0.0, -1.0, 1.0]);
    assert_eq!(d.force, [0.0, 1.0, -1.0]);
}

#[test]
fn cross_matrix_layout() {
    let m = sva::vector3_to_cross_matrix(&[1.0, 2.0, 3.0]);
    assert_eq!(m, [[0.0, -3.0, 2.0], [3.0, 0.0, -1.0], [-2.0, 1.0, 0.0]]);

    let m6 = vector6_to_cross_matrix(&[1.0, 2.0, 3.0, 4.0, 5.0, 6.0]);
    assert_eq!(m6[0], [0.0, -3.0, 2.0, 0.0, 0.0, 0.0]);
    assert_eq!(m6[3], [0.0, -6.0, 5.0, 0.0, -3.0, 2.0]);
    assert_eq!(m6[5], [-5.0, 4.0, 0.0, -2.0, 1.0, 0.0]);

    let d6 = vector6_to_cross_dual_matrix(&[1.0, 2.0, 3.0, 4.0, 5.0, 6.0]);
    for i in 0..6 {
        for j in 0..6 {
            assert_eq!(d6[i][j], -m6[j][i]);
        }
    }
}

#[test]
fn split_and_join_six_vectors() {
    let v = [1.0, 2.0, 3.0, 4.0, 5.0, 6.0];
    assert_eq!(sva::get_first_vec3(&v), [1.0, 2.0, 3.0]);
    assert_eq!(sva::get_second_vec3(&v), [4.0, 5.0, 6.0]);
    let m = MotionVector::from_vector(v);
    assert_eq!(m.angular, [1.0, 2.0, 3.0]);
    assert_eq!(m.linear, [4.0, 5.0, 6.0]);
    assert_eq!(ForceVector::from_vector(v).vector(), v);
}

#[test]
fn division_by_zero_propagates() {
    let m = MotionVector::from_vectors([1.0, -1.0, 0.0], [2.0, 0.0, -3.0]);
    let q = m / 0.0;
    assert_eq!(q.angular[0], f64::INFINITY);
    assert_eq!(q.angular[1], f64::NEG_INFINITY);
    assert!(q.angular[2].is_nan());
    assert_eq!(q.linear[2], f64::NEG_INFINITY);
    let mut f = ForceVector::from_vectors([1.0, 0.0, 0.0], [0.0, 0.0, 1.0]);
    f.div_assign(0.0);
    assert_eq!(f.couple[0], f64::INFINITY);
    assert!(f.force[0].is_nan());
}
