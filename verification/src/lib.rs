//! A terminal renderer that spins a flat point cloud, bowed into a dish, in
//! front of a fixed camera and rasterises it as a z-buffered ASCII frame.
//!
//! All geometry is carried in signed fixed-point with four decimal places
//! ([`fixed::FP_ONE`] is 1.0), so every step of the pipeline — point source,
//! rotation, perspective projection, depth test and glyph shading — is plain
//! integer arithmetic with proved bounds. Trigonometric values for the two
//! rotation phases enter the engine as fixed-point inputs.

pub mod angles;
pub mod engine;
pub mod fixed;
pub mod frame;
pub mod geom;
pub mod points;
pub mod shader;
pub mod source;
