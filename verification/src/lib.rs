//! Build-time timing instrumentation for functions.
//!
//! The heart of the crate is a source-to-source transform: given a function
//! definition, it synthesizes a replacement with the same visibility and
//! signature whose body brackets the original body between two monotonic
//! clock reads and emits one log record per completed call, all behind a
//! per-call runtime gate read from the `ENABLE_FUNCTION_TIMER` environment
//! variable.

pub mod fndef;
pub mod gate;
pub mod record;
pub mod transform;

pub use fndef::FnDef;
pub use gate::gate_on;
pub use record::format_record;
pub use transform::time;
pub use transform::TransformError;
