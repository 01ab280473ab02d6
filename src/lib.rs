//! Planning and bookkeeping for running a compute kernel on a GPU: the shape
//! checks, the workgroup grid, the buffers and bindings, the command sequence
//! and the session's stages, each stated and proved over plain values.

pub mod dispatch;
pub mod grid;
pub mod matrix;
pub mod session;
