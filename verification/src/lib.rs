//! Software renderer for Lindenmayer systems.
//!
//! The crate generates figures in three stages: a string rewriter expands an
//! seed under a set of productions, a 3D turtle interprets the expanded
//! string as movement commands and emits line segments, and a software
//! rasterizer projects those segments through an orbital camera into a packed
//! 32-bit pixel buffer with a depth test.
//!
//! All geometry is carried in 16.16 fixed-point integers (see [`fixed`]), so
//! every arithmetic step has an exact, machine-checked meaning.

use vstd::prelude::*;

pub mod camera;
pub mod editor;
pub mod fixed;
pub mod lsystem;
pub mod main_menu;
pub mod renderer;
pub mod turtle3d;
pub mod vec3;

verus! {

/// The errors the pipeline can report.
#[derive(Clone, Copy, PartialEq, Eq, Structural, Debug)]
pub enum LsysError {
    /// The seed is empty although at least one rewriting pass is requested.
    EmptySeed,
    /// The configured step length is zero or negative.
    NonPositiveStep,
    /// A palette entry has a component outside `[0, 1]`.
    PaletteOutOfRange,
    /// An expansion pass would exceed the expanded-string length cap.
    BoundExceeded,
    /// A renderer was asked for a zero-area pixel buffer.
    ZeroArea,
}

impl LsysError {
    /// A short description, naming the offending field where there is one.
    pub fn message(&self) -> &'static str {
        match self {
            LsysError::EmptySeed => "seed: empty, but iterations > 0",
            LsysError::NonPositiveStep => "step_length: must be positive",
            LsysError::PaletteOutOfRange => "colors.palette: component outside [0, 1]",
            LsysError::BoundExceeded => "expanded string exceeds the length cap",
            LsysError::ZeroArea => "width and height must both be nonzero",
        }
    }
}

} // verus!
