//! Decision logic of a terminal Ubuntu optimizer: the catalogue of tweaks,
//! system and scan evaluation, script assembly, and the interactive state
//! machine behind the user interface.

pub mod text;
pub mod app;
pub mod display;
pub mod properties;
pub mod script;
pub mod system;
pub mod tweak;
pub mod unicode;
