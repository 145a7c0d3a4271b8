//! The panel's pages: the trigger page and the generator page.

pub mod generator;
pub mod trigger;
