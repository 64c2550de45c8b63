//! Planning core for the GPU shader programs behind a color-picker widget.
//!
//! The widget renders its sub-areas (picker area, hue / lightness / chroma /
//! alpha strips, and two final swatches) with one compiled shader program per
//! [`ProgramKind`]. Every draw is a full-screen quad whose pixels are computed
//! entirely in the fragment shader from a handful of scalar and vector
//! uniforms.
//!
//! This crate holds the decisions: which fragment body each kind is built
//! from, which uniforms each kind uploads per frame, and the exact command
//! sequences for program construction, the draw pass, and teardown. An
//! unverified interpreter owns the graphics context and the GLSL text and
//! executes these plans step by step.

pub mod kind;
pub mod laws;
pub mod plan;

pub use kind::FragmentBody;
pub use kind::ProgramKind;
pub use plan::destroy_commands;
pub use plan::PaintCommand;
pub use plan::SetupCommand;
pub use plan::ShaderStage;
pub use plan::SourceText;
pub use plan::TeardownCommand;
pub use plan::Topology;
pub use plan::UniformValue;
