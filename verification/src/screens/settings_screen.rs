//! The settings screen. It holds no state yet and every message leaves it
//! as it is.

use crate::screens::contracts::Effect;
use crate::screens::contracts::Screen;
use crate::screens::route::Route;
use vstd::prelude::*;

verus! {

/// The state of the settings screen: none.
pub struct SettingsScreen {}

/// What can happen to the settings screen.
#[derive(Debug, Clone, Copy, PartialEq, Eq, Structural)]
pub enum Message {
    /// Another theme was asked for.
    UpdateTheme,
    /// Another screen was asked for.
    Navigate(Route),
}

/// What the settings screen shows: one line of text.
#[derive(Debug, PartialEq)]
pub struct SettingsView {
    pub text: String,
}

/// The line that the settings screen shows.
pub const GREETING: &'static str = "hello world";

impl Default for SettingsScreen {
    fn default() -> Self {
        SettingsScreen {}
    }
}

impl Screen<Message> for SettingsScreen {
    type View = SettingsView;

    /// No message changes the screen or asks for anything.
    fn update(&mut self, message: Message) -> (effects: Vec<Effect>)
        ensures
            *final(self) == *old(self),
            effects@.len() == 0,
    {
        match message {
            Message::UpdateTheme => Vec::new(),
            Message::Navigate(_) => Vec::new(),
        }
    }

    /// Describes the screen: its one line of text.
    fn view(&self) -> (shown: SettingsView)
        ensures
            shown.text@ == GREETING@,
    {
        SettingsView { text: GREETING.to_owned() }
    }
}

} // verus!
