//! The messages of the generic controls that the pages are built from.

pub mod radio;
