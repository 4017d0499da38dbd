//! The logic behind the egui front end: the editor's modes, the helpers that
//! components use to draw themselves, and the register view of the MIPS model.
pub mod editor;
pub mod helper;
pub mod mips_reg_view_window;
