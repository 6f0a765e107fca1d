//! Camera-control rules for a frame-stepped 3D application.

pub mod bindings;
pub mod flycam;
pub mod input;
pub mod laws;
pub mod scalar;
pub mod spring_arm;
