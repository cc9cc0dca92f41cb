//! What the widgets show.
pub mod timer;
