//! Core, fixed-capacity building blocks of the K1 platform: object pools,
//! bump arenas, ring buffers, platform enums and the decision logic of the
//! renderer, UI menu, app lifecycle and the activity main loop.

pub mod error;
pub mod memory;
pub mod sys;
pub mod ui;
pub mod gles;
pub mod vulkan;
pub mod lifecycle;
pub mod activity;
