//! Window-surface lifecycle and GPU bootstrap decisions for drawing a 2-D
//! scene into an on-screen window.
//!
//! The crate holds the rules only: what a resize does to the drawing surface,
//! which read-back a present performs, which Vulkan device and queue family a
//! bootstrap selects, which EGL configuration wins, and in which order a
//! context is torn down. The windowing, framebuffer and GPU calls themselves
//! are made by the host, which hands their outcomes in as plain values.

pub mod error;
pub mod gl;
pub mod surface;
pub mod vulkan;
pub mod window;

pub use crate::vulkan::AshGraphics;
pub use crate::window::WindowWrapper;
