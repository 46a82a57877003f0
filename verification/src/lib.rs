//! Geometry pipeline for rendering 3D orthonormal reference frames as
//! orthographic projections onto 2D canvases.
//!
//! All geometry is carried in exact rational arithmetic, so every step of the
//! pipeline (rigid transformation, bounding extents, view fitting, pixel
//! mapping) has an exact mathematical contract.

pub mod draw;
pub mod frame;
pub mod rat;
