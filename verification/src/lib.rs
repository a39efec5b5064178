//! Verified core of the Fidget-VK desktop toy: the integer and decision logic
//! of its platform shells, swapchain setup, desktop capture and simulation
//! bookkeeping.

pub mod actions;
pub mod bitmap;
pub mod broadphase;
pub mod config;
pub mod input;
pub mod monitors;
pub mod particles;
pub mod pixels;
pub mod pool;
pub mod platform;
pub mod pointer;
pub mod ring;
pub mod rng;
pub mod shader;
pub mod shell;
pub mod spring;
pub mod vulkan;
pub mod wide;
pub mod words;
