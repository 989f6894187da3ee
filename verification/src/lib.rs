//! Core of a small deferred rendering engine, kept apart from the GPU.
//!
//! Everything the engine decides — how a scene is batched by material, which
//! pipeline a material shape derives, how framebuffer sets follow the
//! swapchain, what a frame's command stream contains, and when an acquire
//! failure is retried — lives here as verified code over plain values.
//! The graphics device, the window, and all floating-point matrix work stay
//! in the embedding binary, which feeds outcomes (acquired image indices,
//! resize extents) into this core and executes the command streams it emits.

pub mod batch;
pub mod context;
pub mod errors;
pub mod frame;
pub mod host;
pub mod material;
pub mod mesh;
pub mod pass;
pub mod pipeline;
pub mod renderer;
pub mod scene;
