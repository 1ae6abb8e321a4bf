//! The identifiers of the application's screens.

use vstd::prelude::*;

verus! {

/// Selects which screen is active. A value names exactly one screen, and no
/// history of earlier routes is kept anywhere.
#[derive(Debug, Clone, Copy, PartialEq, Eq, Structural)]
pub enum Route {
    Home,
    Settings,
}

} // verus!
