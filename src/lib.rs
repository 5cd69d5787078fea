//! Verified core of a graphics-API demonstration harness: the demo table, the
//! run state of the render loop, the per-frame render context, resource pools,
//! texture validation and the command-line decisions around them.

pub mod error;
pub mod drawfunc;
pub mod run_state;
pub mod animation;
pub mod texture2d;
pub mod context;
pub mod cli;
pub mod matrix;
pub mod program;
