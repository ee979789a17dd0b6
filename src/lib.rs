//! Control logic and image processing for a two-sensor camera stack built on
//! the kernel media-controller API.

pub mod debayer;
pub mod text;
pub mod topology;
pub mod media;
pub mod command;
pub mod camera;
pub mod picture;
pub mod persist;
