//! Streams large populations of colored quads to the GPU through a three-stage
//! pipeline (UI, transfer, render), with grow-on-demand buffer pools, per-buffer
//! ready flags and single-slot handoffs between the stages.

pub mod flag;
pub mod handoff;
pub mod pool;
pub mod quad;
pub mod render;
pub mod shutdown;
pub mod stage;
pub mod window;
