//! Host-side runtime for natively compiled validation modules.
//!
//! A validation module is native code behind a small ABI: an init routine,
//! an execution routine, the base address of its linear memory and the
//! offset of its heap base. The host writes serialized input at the heap
//! base, calls the execution routine, and gets back one 64-bit value that
//! packs the offset and the length of the output.
//!
//! - [`codec`]: the packed (offset, length) convention.
//! - [`memory`]: from module-relative offsets to host memory.
//! - [`logging`]: the logging import that a module calls back into.
//! - [`wire`]: the byte forms of validation parameters and results.
//! - [`chain`]: the state threaded from cycle to cycle.
//! - [`timing`]: the marks of a cycle and the report on a run.
//! - [`protocol`] and [`harness`]: the decisions of a run, one event at a
//!   time; loading and calling the module is the driver's part.
//! - [`laws`]: what holds of every run.

pub mod chain;
pub mod codec;
pub mod error;
pub mod harness;
pub mod laws;
pub mod logging;
pub mod memory;
pub mod protocol;
pub mod timing;
pub mod wire;
