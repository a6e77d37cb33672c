//! Safe control-plane model for a camera driven through a handle-based native
//! driver: a structured error taxonomy, the configuration-tree (widget) model
//! with kind-gated value access, event decoding, and the small helpers that
//! the driver glue needs (lossy text decoding, log-level translation, the
//! process-wide lock policy, and one-shot out-parameter slots).

pub mod abilities;
pub mod camera;
pub mod error;
pub mod helper;
pub mod widget;
