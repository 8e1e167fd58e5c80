//! Driver for a two-channel digital-to-analog converter, with its register
//! model, verified with Verus.

pub mod dma;
pub mod driver;
pub mod laws;
pub mod peripheral;
pub mod registers;
pub mod value;
