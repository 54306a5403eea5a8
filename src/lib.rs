//! Render-pipeline construction and per-frame draw batching for an explicit
//! graphics API: shader reflection into vertex and resource layouts, pipeline
//! handle replacement, descriptor allocation, geometry batching and the frame
//! lifecycle.
pub mod format;
pub mod layout;
pub mod descriptor;
pub mod builder;
pub mod batch;
pub mod pipeline;
pub mod frame;
pub mod renderer;
pub mod barrier;
pub mod memory;
