//! Typed access to the parameters that a build script is given.
//!
//! A build script receives its parameters as environment variables. The
//! variable for the parameter `key` is named `BUILD_PARAM_<KEY>`, where
//! `<KEY>` is the key in uppercase with hyphens turned into underscores. The
//! accessors of [`input`] take an [`Environment`], find the variable of a
//! key in it, and read its value as text, as a boolean or as an integer.
//! Each accessor comes in two forms: one that returns `None` for a parameter
//! that is not set, and one that fails with [`ParamError`] for it.

pub mod environment;
pub mod error;
pub mod input;
pub mod name;
pub mod parse;
pub mod text;

pub use environment::Environment;
pub use error::{Expected, ParamError};
