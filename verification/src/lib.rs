//! A safety layer over a single-threaded, globally stateful native
//! graphics library: ownership of native resources and the pairing of
//! the library's begin and end calls, stated as contracts.

pub mod audio;
pub mod automation;
pub mod context;
pub mod display;
pub mod error;
pub mod graphics;
pub mod handle;
pub mod input;
pub mod native;
pub mod options;
pub mod physac;
pub mod pkg;
pub mod shapes;
pub mod sys;
pub mod text;
pub mod trace;

pub use crate::context::Context;
pub use crate::error::{Error, Result};
pub use crate::options::{init, Options};
