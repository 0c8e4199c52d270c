//! Launch planning for the Metal compute kernels: which pipeline a kernel
//! needs, which arguments it is bound with, and how its threads are grouped.
//! The plans are plain values; running one on a Metal device is left to the caller.

pub mod cache;
pub mod constants;
pub mod error;
pub mod gemm;
pub mod grid;
pub mod launch;
pub mod ops;
pub mod pipeline;
pub mod quantized;
pub mod shape;
pub mod source;

pub use cache::Cache;
pub use constants::{ConstantValues, Value};
pub use error::MetalKernelError;
pub use grid::{divide, linear_split, Size3};
pub use launch::{BufferSlot, Dispatch, FloatSlot, Grid, KernelArg, Launch, Usage};
pub use pipeline::{PipelineKey, PipelineRequest};
pub use quantized::GgmlDType;
pub use source::Source;
