pub mod frame;
pub mod sparse;
