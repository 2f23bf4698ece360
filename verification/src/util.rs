//! Small utilities.
pub mod ondrop;
