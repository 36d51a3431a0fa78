//! Rendering of scan reports.

pub mod pdf;
pub mod terminal;
