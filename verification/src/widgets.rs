//! Display helpers that hold no state.

pub mod status_bar;
