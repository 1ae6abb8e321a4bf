//! The shell of the application: it owns the route and both screens, hands
//! each message to the screen it is for, and shows the screen that is
//! active.

use crate::request::reports;
use crate::request::CallOutcome;
use crate::screens::contracts::Effect;
use crate::screens::contracts::Screen;
use crate::screens::home_screen;
use crate::screens::home_screen::HomeScreen;
use crate::screens::home_screen::HomeView;
use crate::screens::route::Route;
use crate::screens::settings_screen;
use crate::screens::settings_screen::SettingsScreen;
use crate::screens::settings_screen::SettingsView;
use crate::widgets::status_bar::status_bar;
use crate::widgets::status_bar::StatusBar;
use vstd::prelude::*;

verus! {

/// The state of the shell.
pub struct AppScreen {
    route: Route,
    home: HomeScreen,
    settings: SettingsScreen,
}

/// What can happen to the shell: a navigation, or a message for one of its
/// screens.
#[derive(Debug, PartialEq)]
pub enum Message {
    /// This screen was asked for.
    Navigate(Route),
    /// A message for the home screen.
    Home(home_screen::Message),
    /// A message for the settings screen.
    Settings(settings_screen::Message),
}

/// The shell as the contracts see it: the active route and the state of the
/// home screen. The settings screen has no state.
pub struct ShellState {
    pub route: Route,
    pub home: home_screen::State,
}

/// The view of the one screen that is active.
#[derive(Debug, PartialEq)]
pub enum ScreenView {
    Home(HomeView),
    Settings(SettingsView),
}

/// What the shell shows: a side bar with its text, the view of the active
/// screen beside it, and a status bar below them.
#[derive(Debug, PartialEq)]
pub struct AppView {
    pub route: Route,
    pub side_bar: String,
    pub content: ScreenView,
    pub status: StatusBar,
}

/// The text in the side bar.
pub const SIDE_BAR: &'static str = "side bar";

/// The message in the shell's status bar.
pub const STATUS: &'static str = "some message";

impl Clone for Message {
    fn clone(&self) -> (copy: Self)
        ensures
            copy == *self,
    {
        match self {
            Message::Navigate(route) => Message::Navigate(*route),
            Message::Home(message) => Message::Home(message.clone()),
            Message::Settings(message) => Message::Settings(*message),
        }
    }
}

/// Whether `message` takes the shell from `pre` to `post`. A navigation
/// makes the named screen the active one and leaves the screens as they
/// are. A message for a screen goes to that screen, active or not, and
/// leaves the route as it is.
pub open spec fn steps(pre: ShellState, message: Message, post: ShellState) -> bool {
    match message {
        Message::Navigate(route) => post == ShellState { route: route, ..pre },
        Message::Home(message) => {
            &&& post.route == pre.route
            &&& home_screen::steps(pre.home, message, post.home)
        },
        Message::Settings(_) => post == pre,
    }
}

/// Whether handling `message` in state `pre` asks for `effects`: what the
/// home screen asks for on a message of its own, and nothing otherwise.
pub open spec fn emits(pre: ShellState, message: Message, effects: Seq<Effect>) -> bool {
    match message {
        Message::Home(message) => home_screen::emits(pre.home, message, effects),
        _ => effects.len() == 0,
    }
}

impl AppView {
    /// Whether this is the view of a shell in `state`: the active route,
    /// the side bar and the status bar with their texts, and as content the
    /// view of the screen bound to the active route, and of no other.
    pub open spec fn depicts(self, state: ShellState) -> bool {
        &&& self.route == state.route
        &&& self.side_bar@ == SIDE_BAR@
        &&& match state.route {
            Route::Home => self.content matches ScreenView::Home(shown) && shown.depicts(
                state.home,
            ),
            Route::Settings => self.content matches ScreenView::Settings(shown) && shown.text@
                == settings_screen::GREETING@,
        }
        &&& self.status.caption@ == crate::widgets::status_bar::CAPTION@
        &&& self.status.message@ == STATUS@
    }
}

impl AppScreen {
    /// The shell as the contracts see it.
    pub closed spec fn state(&self) -> ShellState {
        ShellState { route: self.route, home: self.home.state() }
    }

    /// The route of the active screen.
    pub fn route(&self) -> (route: Route)
        ensures
            route == self.state().route,
    {
        self.route
    }

    /// The home screen.
    pub fn home(&self) -> (screen: &HomeScreen)
        ensures
            screen.state() == self.state().home,
    {
        &self.home
    }

    /// The settings screen.
    pub fn settings(&self) -> &SettingsScreen {
        &self.settings
    }
}

impl Default for AppScreen {
    /// The shell starts on the home screen, with both screens as they are
    /// when they are created.
    fn default() -> (screen: Self)
        ensures
            screen.state().route == Route::Home,
            screen.state().home.initial(),
    {
        AppScreen {
            route: Route::Home,
            home: HomeScreen::default(),
            settings: SettingsScreen::default(),
        }
    }
}

impl Screen<Message> for AppScreen {
    type View = AppView;

    /// Handles one message as [`steps`] says and asks for what [`emits`]
    /// says.
    fn update(&mut self, message: Message) -> (effects: Vec<Effect>)
        ensures
            steps(old(self).state(), message, final(self).state()),
            emits(old(self).state(), message, effects@),
    {
        match message {
            Message::Navigate(route) => {
                self.route = route;
                Vec::new()
            },
            Message::Home(message) => self.home.update(message),
            Message::Settings(message) => self.settings.update(message),
        }
    }

    /// Describes the shell as [`AppView::depicts`] says.
    fn view(&self) -> (shown: AppView)
        ensures
            shown.depicts(self.state()),
    {
        let content = match self.route {
            Route::Home => ScreenView::Home(self.home.view()),
            Route::Settings => ScreenView::Settings(self.settings.view()),
        };
        AppView {
            route: self.route,
            side_bar: SIDE_BAR.to_owned(),
            content,
            status: status_bar(STATUS),
        }
    }
}

/// The message that feeds the end of a call back into the shell: the home
/// screen's message for that end, addressed to the home screen.
pub fn completion(outcome: CallOutcome) -> (message: Message)
    ensures
        message matches Message::Home(report) && reports(report, outcome),
{
    Message::Home(crate::request::completion(outcome))
}

/// The shell shows the screen bound to the active route and never the
/// other: the content of its view is the home screen's view exactly while
/// the route is the home route, and the settings screen's view exactly
/// while it is the settings route.
pub proof fn lemma_view_shows_the_active_screen(shown: AppView, state: ShellState)
    requires
        shown.depicts(state),
    ensures
        shown.content is Home <==> state.route == Route::Home,
        shown.content is Settings <==> state.route == Route::Settings,
        shown.content matches ScreenView::Home(home) ==> home.depicts(state.home),
        shown.content matches ScreenView::Settings(settings) ==> settings.text@
            == settings_screen::GREETING@,
{
}

/// Navigation changes the active route and nothing in either screen.
pub proof fn lemma_navigation_changes_only_the_route(
    pre: ShellState,
    route: Route,
    post: ShellState,
)
    requires
        steps(pre, Message::Navigate(route), post),
    ensures
        post.route == route,
        post.home == pre.home,
{
}

/// A message for the home screen reaches it whichever screen is active, so
/// the end of a call is handled, and the loading ends, also after the user
/// has moved on to another screen.
pub proof fn lemma_home_message_reaches_home(
    pre: ShellState,
    message: home_screen::Message,
    post: ShellState,
)
    requires
        steps(pre, Message::Home(message), post),
    ensures
        home_screen::steps(pre.home, message, post.home),
        post.route == pre.route,
        message is Done ==> !post.home.loading,
{
}

} // verus!
