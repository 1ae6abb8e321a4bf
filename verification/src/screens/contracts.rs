//! The contract that every screen fulfils.

use crate::request::HttpCall;
use std::fmt::Debug;
use vstd::prelude::*;

verus! {

/// One thing that a screen asks the runtime to do after a message was
/// handled.
#[derive(Debug, PartialEq)]
pub enum Effect {
    /// The call is to be made, and its result fed back to the screen as a
    /// message.
    Send(HttpCall),
}

/// A unit of state and behaviour bound to one route. The shell hands each
/// message to the screen that is active and shows that screen's view.
pub trait Screen<M: Debug + Clone>: Default {
    /// The description of what the screen shows.
    type View;

    /// Handles one message: changes the state and lists what is to be done
    /// next. Most messages ask for nothing.
    fn update(&mut self, message: M) -> Vec<Effect>;

    /// Describes what the screen shows in its present state. The state is
    /// not changed.
    fn view(&self) -> Self::View;
}

} // verus!
