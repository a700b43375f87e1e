pub mod catalog;
pub mod firmware;
pub mod reducer;
pub mod roles;
pub mod skeleton;
pub mod text;
