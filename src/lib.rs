//! A freehand drawing surface: pointer events become stroke segments drawn
//! with the currently selected color and width.

pub mod pen;
pub mod laws;
pub mod palette;
