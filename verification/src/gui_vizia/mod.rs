//! The decisions of the vizia front end.
pub mod gui;
