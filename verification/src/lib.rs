//! Decision logic of a small real-time renderer built on an explicit GPU API.
//!
//! The crate models what the renderer decides and computes — device
//! selection, swapchain configuration, command-buffer pooling, the
//! per-frame synchronization protocol and the staged upload path — over
//! plain values, so that each step carries a verified contract.  The
//! GPU API calls themselves are issued by a thin unverified shell that
//! follows the plans and state machines exported here.

pub mod commands;
pub mod config;
pub mod device;
pub mod frame;
pub mod gpubuffer;
pub mod render;
pub mod shader;
pub mod swapchain;
pub mod sync;
pub mod tools;
pub mod window;
