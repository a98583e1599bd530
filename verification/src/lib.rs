//! A type-safe binding and lifecycle layer over a C-ABI graphics API.
//!
//! The crate resolves entry points at runtime by a naming convention, keeps
//! them in an all-or-nothing binding table, models the platform context and
//! surface life cycle, and offers thin typed wrappers for every enum-like
//! parameter of the API, so that no bare integer crosses the boundary.

pub mod bindings;
pub mod context;
pub mod dimensions;
pub mod space;
pub mod types;
pub mod util;

pub use bindings::{to_gl_name, Bindings, FunctionLoadingError};
pub use context::{
    ContextCreation, ContextError, ContextState, CreateStep, Profile, SurfaceSize, Version,
};
pub use dimensions::{
    Dimension, Dimensions2D, Height, ScreenDimensions, ScreenHeight, ScreenWidth, Width,
};
pub use space::{Clip, Screen, World};
pub use util::ShaderError;
