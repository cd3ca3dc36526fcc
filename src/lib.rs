//! Spatial vector algebra: motion and force vectors, diagonal impedances and
//! admittances, Plücker coordinate transforms and spatial inertias, over any
//! scalar type with the usual arithmetic operators.
pub mod scalar;
pub mod linalg;
pub mod utility;
pub mod motion_vec;
pub mod force_vec;
pub mod impedance_vec;
pub mod admittance_vec;
pub mod ptransform;
pub mod rb_inertia;
pub mod ab_inertia;
pub mod laws;

pub use scalar::Scalar;
pub use linalg::{Vec3, Vec6, Mat3, Mat6, get_first_vec3, get_second_vec3};
pub use utility::{vector3_to_cross_matrix, vector6_to_cross_matrix, vector6_to_cross_dual_matrix};
pub use motion_vec::MotionVector;
pub use force_vec::ForceVector;
pub use impedance_vec::ImpedanceVector;
pub use admittance_vec::AdmittanceVector;
pub use ptransform::{
    PTransform, rot_x_sin_cos, rot_y_sin_cos, rot_z_sin_cos, rotation_cos_angle,
    rotation_velocity_from, relative_rotation, rotation_error_from, transform_error_from,
    interpolate_translation,
};
pub use rb_inertia::{RBInertia, inertia_to_origin};
pub use ab_inertia::ABInertia;
