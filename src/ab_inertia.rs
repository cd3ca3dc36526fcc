use vstd::prelude::*;
use crate::linalg::Mat3;

verus! {

/// An articulated-body spatial inertia, held as its three 3×3 blocks.
#[allow(non_snake_case)]
#[derive(Clone, Copy, Debug, PartialEq)]
pub struct ABInertia<T> {
    pub M: Mat3<T>,
    pub H: Mat3<T>,
    pub I: Mat3<T>,
}

} // verus!
