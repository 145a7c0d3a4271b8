//! The signal-routing and derived-state core of an oscilloscope control panel.
//!
//! The panel's widgets stay in the windowing toolkit. What they decide lives
//! here: which trigger source follows from the operator's selections, what a
//! timer tick fires, which marker lines the trigger overlay strokes, and how the
//! events of the two generator outputs are told apart. Every function takes
//! plain values and hands plain values back, so that the toolkit side only has
//! to deliver events and carry out what comes back.

pub mod application;
pub mod color;
pub mod geometry;
pub mod router;
pub mod sketch;
pub mod surface;
pub mod widget;
