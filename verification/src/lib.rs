//! Verified core of a synchronous circuit simulator: component ports,
//! the logic of its MIPS and RISC-V components, and the text that its
//! views show.
pub mod common;
pub mod components;
pub mod gui_egui;
pub mod gui_vizia;
pub mod text;
