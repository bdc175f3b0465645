//! Construction of 3D homogeneous transformation and projection matrices.
//!
//! The crate provides two layers.  The leaf layer is one constructor per
//! elementary transform (`translate`, `scale`, `shear_x`/`shear_y`/`shear_z`,
//! `rotate`) and one per camera or projection matrix (`look_at`, `ortho`,
//! `frustum`, `perspective`).  On top of it sits [`transform::Transform`], a
//! value-semantics builder that folds a chain of elementary transforms into a
//! single matrix by left-multiplication, so that chaining order equals the
//! order in which the transforms take effect on a point.
//!
//! All numeric values are exact rationals ([`scalar::Scalar`]), so every
//! matrix entry is pinned down exactly by the contracts, and the algebraic
//! laws of the constructors (what a translation, scale, shear, rotation or
//! projection does to a point) are proved in [`laws`].  Angles are carried as
//! the sine and cosine of the half angle ([`angle::Angle`]), which is the only
//! part of an angle the rotation constructor reads.

pub mod angle;
pub mod laws;
pub mod matrix;
pub mod scalar;
pub mod transform;
pub mod vector;
