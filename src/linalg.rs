use vstd::prelude::*;
use core::ops::Neg;
use crate::scalar::{Scalar, total_ops, sadd, ssub, smul, sdiv, sneg, szero, zero};

verus! {

/// A 3-vector.
pub type Vec3<T> = [T; 3];

/// A 6-vector: an angular (or couple) block followed by a linear (or force) block.
pub type Vec6<T> = [T; 6];

/// A 3×3 matrix, stored row by row.
pub type Mat3<T> = [[T; 3]; 3];

/// A 6×6 matrix, stored row by row.
pub type Mat6<T> = [[T; 6]; 6];

pub open spec fn mat3_view<T>(m: Mat3<T>) -> Seq<Seq<T>> {
    m@.map_values(|row: [T; 3]| row@)
}

pub open spec fn mat6_view<T>(m: Mat6<T>) -> Seq<Seq<T>> {
    m@.map_values(|row: [T; 6]| row@)
}

pub open spec fn vadd<T: Scalar>(a: Seq<T>, b: Seq<T>) -> Seq<T> {
    Seq::new(a.len(), |i: int| sadd(a[i], b[i]))
}

pub open spec fn vsub<T: Scalar>(a: Seq<T>, b: Seq<T>) -> Seq<T> {
    Seq::new(a.len(), |i: int| ssub(a[i], b[i]))
}

pub open spec fn vneg<T: Scalar>(a: Seq<T>) -> Seq<T> {
    Seq::new(a.len(), |i: int| sneg(a[i]))
}

/// `s * a`, entry by entry.
pub open spec fn vscale<T: Scalar>(s: T, a: Seq<T>) -> Seq<T> {
    Seq::new(a.len(), |i: int| smul(s, a[i]))
}

/// `a / s`, entry by entry.
pub open spec fn vdiv<T: Scalar>(a: Seq<T>, s: T) -> Seq<T> {
    Seq::new(a.len(), |i: int| sdiv(a[i], s))
}

/// The entry-by-entry (Hadamard) product.
pub open spec fn vcmul<T: Scalar>(a: Seq<T>, b: Seq<T>) -> Seq<T> {
    Seq::new(a.len(), |i: int| smul(a[i], b[i]))
}

/// The sum of the first `n` products `a[i] * b[i]`, added from the left.
pub open spec fn dot_prefix<T: Scalar>(a: Seq<T>, b: Seq<T>, n: nat) -> T
    decreases n,
{
    if n == 0 {
        szero::<T>()
    } else if n == 1 {
        smul(a[0], b[0])
    } else {
        sadd(dot_prefix(a, b, (n - 1) as nat), smul(a[n - 1], b[n - 1]))
    }
}

/// The dot product, added from the left.
pub open spec fn vdot<T: Scalar>(a: Seq<T>, b: Seq<T>) -> T {
    dot_prefix(a, b, a.len())
}

/// The 3-D cross product `a × b`.
pub open spec fn vcross<T: Scalar>(a: Seq<T>, b: Seq<T>) -> Seq<T> {
    seq![
        ssub(smul(a[1], b[2]), smul(a[2], b[1])),
        ssub(smul(a[2], b[0]), smul(a[0], b[2])),
        ssub(smul(a[0], b[1]), smul(a[1], b[0])),
    ]
}

/// The first three entries of a 6-vector.
pub open spec fn head3<T>(v: Seq<T>) -> Seq<T> {
    v.subrange(0, 3)
}

/// The last three entries of a 6-vector.
pub open spec fn tail3<T>(v: Seq<T>) -> Seq<T> {
    v.subrange(3, 6)
}

pub open spec fn transpose<T>(m: Seq<Seq<T>>) -> Seq<Seq<T>> {
    Seq::new(m.len(), |i: int| Seq::new(m.len(), |j: int| m[j][i]))
}

pub open spec fn mneg<T: Scalar>(m: Seq<Seq<T>>) -> Seq<Seq<T>> {
    Seq::new(m.len(), |i: int| vneg(m[i]))
}

pub open spec fn madd<T: Scalar>(a: Seq<Seq<T>>, b: Seq<Seq<T>>) -> Seq<Seq<T>> {
    Seq::new(a.len(), |i: int| vadd(a[i], b[i]))
}

/// `m · v`: each entry is the dot product of a row with `v`.
pub open spec fn mat_vec<T: Scalar>(m: Seq<Seq<T>>, v: Seq<T>) -> Seq<T> {
    Seq::new(m.len(), |i: int| vdot(m[i], v))
}

/// `a · b`: entry `(i, j)` is the dot product of row `i` of `a` with column `j` of `b`.
pub open spec fn mat_mul<T: Scalar>(a: Seq<Seq<T>>, b: Seq<Seq<T>>) -> Seq<Seq<T>> {
    Seq::new(a.len(), |i: int| Seq::new(a.len(), |j: int| vdot(a[i], transpose(b)[j])))
}

/// The 3×3 matrix of zeros.
pub open spec fn zero_block<T: Scalar>() -> Seq<Seq<T>> {
    Seq::new(3, |i: int| Seq::new(3, |j: int| szero::<T>()))
}

/// The 6×6 matrix with blocks `a` (top left), `b` (top right), `c` (bottom
/// left) and `d` (bottom right).
pub open spec fn blocks<T>(a: Seq<Seq<T>>, b: Seq<Seq<T>>, c: Seq<Seq<T>>, d: Seq<Seq<T>>) -> Seq<Seq<T>> {
    Seq::new(
        6,
        |i: int|
            Seq::new(
                6,
                |j: int|
                    if i < 3 {
                        if j < 3 {
                            a[i][j]
                        } else {
                            b[i][j - 3]
                        }
                    } else {
                        if j < 3 {
                            c[i - 3][j]
                        } else {
                            d[i - 3][j - 3]
                        }
                    },
            ),
    )
}

pub fn add3<T: Scalar>(a: &Vec3<T>, b: &Vec3<T>) -> (r: Vec3<T>)
    requires
        total_ops::<T>(),
    ensures
        r@ == vadd(a@, b@),
{
    let r = [a[0] + b[0], a[1] + b[1], a[2] + b[2]];
    assert(r@ =~= vadd(a@, b@));
    r
}

pub fn sub3<T: Scalar>(a: &Vec3<T>, b: &Vec3<T>) -> (r: Vec3<T>)
    requires
        total_ops::<T>(),
    ensures
        r@ == vsub(a@, b@),
{
    let r = [a[0] - b[0], a[1] - b[1], a[2] - b[2]];
    assert(r@ =~= vsub(a@, b@));
    r
}

pub fn neg3<T: Scalar>(a: &Vec3<T>) -> (r: Vec3<T>)
    requires
        total_ops::<T>(),
    ensures
        r@ == vneg(a@),
{
    let r = [a[0].neg(), a[1].neg(), a[2].neg()];
    assert(r@ =~= vneg(a@));
    r
}

pub fn scale3<T: Scalar>(s: T, a: &Vec3<T>) -> (r: Vec3<T>)
    requires
        total_ops::<T>(),
    ensures
        r@ == vscale(s, a@),
{
    let r = [s * a[0], s * a[1], s * a[2]];
    assert(r@ =~= vscale(s, a@));
    r
}

pub fn div3<T: Scalar>(a: &Vec3<T>, s: T) -> (r: Vec3<T>)
    requires
        total_ops::<T>(),
    ensures
        r@ == vdiv(a@, s),
{
    let r = [a[0] / s, a[1] / s, a[2] / s];
    assert(r@ =~= vdiv(a@, s));
    r
}

pub fn cmul3<T: Scalar>(a: &Vec3<T>, b: &Vec3<T>) -> (r: Vec3<T>)
    requires
        total_ops::<T>(),
    ensures
        r@ == vcmul(a@, b@),
{
    let r = [a[0] * b[0], a[1] * b[1], a[2] * b[2]];
    assert(r@ =~= vcmul(a@, b@));
    r
}

pub fn cross3<T: Scalar>(a: &Vec3<T>, b: &Vec3<T>) -> (r: Vec3<T>)
    requires
        total_ops::<T>(),
    ensures
        r@ == vcross(a@, b@),
{
    let r = [
        a[1] * b[2] - a[2] * b[1],
        a[2] * b[0] - a[0] * b[2],
        a[0] * b[1] - a[1] * b[0],
    ];
    assert(r@ =~= vcross(a@, b@));
    r
}

pub fn dot3<T: Scalar>(a: &Vec3<T>, b: &Vec3<T>) -> (r: T)
    requires
        total_ops::<T>(),
    ensures
        r == vdot(a@, b@),
{
    reveal_with_fuel(dot_prefix, 4);
    a[0] * b[0] + a[1] * b[1] + a[2] * b[2]
}

/// Splits off the first three entries of a 6-vector.
pub fn get_first_vec3<T: Copy>(vector: &Vec6<T>) -> (r: Vec3<T>)
    ensures
        r@ == head3(vector@),
{
    let r = [vector[0], vector[1], vector[2]];
    assert(r@ =~= head3(vector@));
    r
}

/// Splits off the last three entries of a 6-vector.
pub fn get_second_vec3<T: Copy>(vector: &Vec6<T>) -> (r: Vec3<T>)
    ensures
        r@ == tail3(vector@),
{
    let r = [vector[3], vector[4], vector[5]];
    assert(r@ =~= tail3(vector@));
    r
}

/// Stacks two 3-vectors into one 6-vector.
pub fn join_vec3<T: Copy>(first: &Vec3<T>, second: &Vec3<T>) -> (r: Vec6<T>)
    ensures
        r@ == first@ + second@,
{
    let r = [first[0], first[1], first[2], second[0], second[1], second[2]];
    assert(r@ =~= first@ + second@);
    r
}

pub fn zero_mat3<T: Scalar>() -> (r: Mat3<T>)
    requires
        total_ops::<T>(),
    ensures
        mat3_view(r) == zero_block::<T>(),
{
    let z = zero::<T>();
    let r = [[z, z, z], [z, z, z], [z, z, z]];
    assert(mat3_view(r) =~~= zero_block::<T>());
    r
}

pub fn transpose3<T: Copy>(m: &Mat3<T>) -> (r: Mat3<T>)
    ensures
        mat3_view(r) == transpose(mat3_view(*m)),
{
    let r = [[m[0][0], m[1][0], m[2][0]], [m[0][1], m[1][1], m[2][1]], [
        m[0][2],
        m[1][2],
        m[2][2],
    ]];
    assert(mat3_view(r) =~~= transpose(mat3_view(*m)));
    r
}

pub fn neg_mat3<T: Scalar>(m: &Mat3<T>) -> (r: Mat3<T>)
    requires
        total_ops::<T>(),
    ensures
        mat3_view(r) == mneg(mat3_view(*m)),
{
    let r = [neg3(&m[0]), neg3(&m[1]), neg3(&m[2])];
    assert(mat3_view(r) =~~= mneg(mat3_view(*m)));
    r
}

pub fn add_mat3<T: Scalar>(a: &Mat3<T>, b: &Mat3<T>) -> (r: Mat3<T>)
    requires
        total_ops::<T>(),
    ensures
        mat3_view(r) == madd(mat3_view(*a), mat3_view(*b)),
{
    let r = [add3(&a[0], &b[0]), add3(&a[1], &b[1]), add3(&a[2], &b[2])];
    assert(mat3_view(r) =~~= madd(mat3_view(*a), mat3_view(*b)));
    r
}

/// `m · v`.
pub fn mat3_mul_vec<T: Scalar>(m: &Mat3<T>, v: &Vec3<T>) -> (r: Vec3<T>)
    requires
        total_ops::<T>(),
    ensures
        r@ == mat_vec(mat3_view(*m), v@),
{
    let r = [dot3(&m[0], v), dot3(&m[1], v), dot3(&m[2], v)];
    assert(r@ =~= mat_vec(mat3_view(*m), v@));
    r
}

/// `a · b`.
pub fn mat3_mul<T: Scalar>(a: &Mat3<T>, b: &Mat3<T>) -> (r: Mat3<T>)
    requires
        total_ops::<T>(),
    ensures
        mat3_view(r) == mat_mul(mat3_view(*a), mat3_view(*b)),
{
    let bt = transpose3(b);
    let r = [
        [dot3(&a[0], &bt[0]), dot3(&a[0], &bt[1]), dot3(&a[0], &bt[2])],
        [dot3(&a[1], &bt[0]), dot3(&a[1], &bt[1]), dot3(&a[1], &bt[2])],
        [dot3(&a[2], &bt[0]), dot3(&a[2], &bt[1]), dot3(&a[2], &bt[2])],
    ];
    assert(mat3_view(bt)[0] == bt[0]@);
    assert(mat3_view(bt)[1] == bt[1]@);
    assert(mat3_view(bt)[2] == bt[2]@);
    assert(mat3_view(r) =~~= mat_mul(mat3_view(*a), mat3_view(*b)));
    r
}

/// Assembles a 6×6 matrix from its four 3×3 blocks.
pub fn from_blocks<T: Copy>(a: &Mat3<T>, b: &Mat3<T>, c: &Mat3<T>, d: &Mat3<T>) -> (r: Mat6<T>)
    ensures
        mat6_view(r) == blocks(mat3_view(*a), mat3_view(*b), mat3_view(*c), mat3_view(*d)),
{
    let r = [
        [a[0][0], a[0][1], a[0][2], b[0][0], b[0][1], b[0][2]],
        [a[1][0], a[1][1], a[1][2], b[1][0], b[1][1], b[1][2]],
        [a[2][0], a[2][1], a[2][2], b[2][0], b[2][1], b[2][2]],
        [c[0][0], c[0][1], c[0][2], d[0][0], d[0][1], d[0][2]],
        [c[1][0], c[1][1], c[1][2], d[1][0], d[1][1], d[1][2]],
        [c[2][0], c[2][1], c[2][2], d[2][0], d[2][1], d[2][2]],
    ];
    assert(mat6_view(r) =~~= blocks(mat3_view(*a), mat3_view(*b), mat3_view(*c), mat3_view(*d)));
    r
}

} // verus!

verus! {

/// The 3-array holding the first three entries of `s`.
pub open spec fn arr3<T>(s: Seq<T>) -> [T; 3] {
    [s[0], s[1], s[2]]
}

/// The 3×3 array holding the first three entries of the first three rows of `m`.
pub open spec fn arr33<T>(m: Seq<Seq<T>>) -> [[T; 3]; 3] {
    [arr3(m[0]), arr3(m[1]), arr3(m[2])]
}

pub proof fn lemma_arr3_view<T>(v: [T; 3], s: Seq<T>)
    requires
        v@ == s,
    ensures
        v == arr3(s),
{
    assert(v =~= arr3(s));
}

pub proof fn lemma_arr33_view<T>(m: [[T; 3]; 3], s: Seq<Seq<T>>)
    requires
        mat3_view(m) == s,
    ensures
        m == arr33(s),
{
    lemma_arr3_view(m[0], s[0]);
    lemma_arr3_view(m[1], s[1]);
    lemma_arr3_view(m[2], s[2]);
    assert(m =~= arr33(s));
}

/// Reading back a 3-vector and a 3×3 matrix from their arrays.
pub proof fn lemma_view_arr<T>(v: Seq<T>, m: Seq<Seq<T>>)
    requires
        v.len() == 3,
        m.len() == 3,
        forall|i: int| 0 <= i < 3 ==> #[trigger] m[i].len() == 3,
    ensures
        arr3(v)@ == v,
        mat3_view(arr33(m)) == m,
{
    assert(arr3(v)@ =~= v);
    assert(arr3(m[0])@ =~= m[0]);
    assert(arr3(m[1])@ =~= m[1]);
    assert(arr3(m[2])@ =~= m[2]);
    assert(mat3_view(arr33(m)) =~~= m);
}

} // verus!
