//! Typed lifecycle of a GPU shader object over an error-code-returning
//! graphics driver: creation, compilation and source introspection, with every
//! driver error code translated into a closed, per-operation error enum.

pub mod kind;
pub mod error;
pub mod text;
pub mod driver;
pub mod shader;
