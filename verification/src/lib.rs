//! An incremental recomputation engine for a live shader preview.
//!
//! Raw inputs (shader text, output size, hardware handle, output target)
//! arrive through per-field mailboxes, flow through a chain of memoizing
//! stages that rebuild rendering resources only when the versions of their
//! inputs changed, and leave through a double-buffered output handoff, so
//! that a half-written frame is never displayed.

pub mod communication;
pub mod device;
pub mod gate;
pub mod graphics_backend_client;
pub mod graphics_backend_worker;
pub mod memo;
pub mod model_device;
pub mod panes;
pub mod render_handoff;
pub mod shader_content_manager;
pub mod shader_config;
pub mod versioned;
