//! Verified core of a WebGPU light-propagation renderer: the byte layout of the
//! buffers it uploads, the per-frame schedule, and the window-state decisions.
pub mod encoding;
pub mod renderer;
pub mod state_machine;
