//! The request screen: a URL, a method, two editors and a "send" button.
//!
//! The screen is idle or loading. "Send" makes it loading and hands out the
//! call to be made; the message that reports the call's end makes it idle
//! again and puts the reported text, a body or a failure alike, into the
//! response editor.
//!
//! What the editors show and which pane is selected are not part of the
//! call: the request editor's text is not sent, and picking a pane changes
//! the selection and nothing that is shown.

use crate::characters::clean;
use crate::characters::is_shapeable;
use crate::characters::lemma_rewritten_can_be_held;
use crate::characters::lemma_rewritten_keeps_what_can_be_held;
use crate::characters::rewrite;
use crate::characters::rewritten;
use crate::characters::shapeable;
use crate::interaction::Action;
use crate::request::reports;
use crate::request::shown_text;
use crate::request::CallOutcome;
use crate::request::HttpCall;
use crate::screens::contracts::Effect;
use crate::screens::contracts::Screen;
use crate::screens::route::Route;
use crate::text_buffer::buffer_text;
use crate::text_buffer::laid_out;
use crate::text_buffer::TextBuffer;
use vstd::prelude::*;

verus! {

/// The methods a request can be sent with. Exactly one is selected at any
/// time.
#[derive(Debug, Clone, Copy, PartialEq, Eq, Structural)]
pub enum HttpMethod {
    Get,
    Post,
    Put,
    Delete,
}

/// The panes of the request area.
#[derive(Debug, Clone, Copy, PartialEq, Eq, Structural)]
pub enum RequestTab {
    Params,
    Headers,
    Body,
}

/// What can happen to the home screen.
#[derive(Debug, PartialEq)]
pub enum Message {
    /// Another screen was asked for. The home screen has nothing to do.
    Navigate(Route),
    /// "Send" was pressed.
    Request,
    /// The URL field now holds this text.
    UpdateUrl(String),
    /// This method was picked.
    UpdateHttpMethod(HttpMethod),
    /// The call ended, with a body or with the report of a failure.
    Done(Result<String, String>),
    /// An interaction with the request editor.
    RequestUpdate(Action),
    /// An interaction with the response editor.
    ResponseAction(Action),
    /// This pane was picked.
    SelectRequestTab(RequestTab),
}

/// The state of the home screen.
pub struct HomeScreen {
    url: String,
    loading: bool,
    http_method: HttpMethod,
    response: TextBuffer,
    request: TextBuffer,
    selected_request_tab: RequestTab,
}

/// The home screen as the contracts see it: every field, the URL as the
/// sequence of its characters.
pub struct State {
    pub url: Seq<char>,
    pub loading: bool,
    pub http_method: HttpMethod,
    pub response: TextBuffer,
    pub request: TextBuffer,
    pub selected_request_tab: RequestTab,
}

/// The "send" button as the view describes it.
#[derive(Debug, PartialEq)]
pub struct SendButton {
    pub label: String,
    /// The message a press sends. `None` disables the button.
    pub on_press: Option<Message>,
}

/// One tab button as the view describes it.
#[derive(Debug, PartialEq)]
pub struct TabButton {
    pub label: String,
    /// Whether the button stands out among the tabs.
    pub highlighted: bool,
    /// The message a press sends.
    pub on_press: Message,
}

/// What the home screen shows. The two editors are bound to the buffers
/// themselves, which [`HomeScreen::request`] and [`HomeScreen::response`]
/// lend out; what the controls send on input is said by [`on_method_picked`],
/// [`on_url_input`], [`on_request_action`] and [`on_response_action`].
#[derive(Debug, PartialEq)]
pub struct HomeView {
    /// The entries of the method picker, in the order shown.
    pub methods: Vec<HttpMethod>,
    pub selected_method: HttpMethod,
    pub url: String,
    /// What the URL field shows while it is empty.
    pub url_placeholder: String,
    pub send: SendButton,
    /// The tab buttons, in the order shown.
    pub tabs: Vec<TabButton>,
    /// What an editor shows while it is empty.
    pub editor_placeholder: String,
}

/// What the URL field shows while it is empty.
pub const URL_PLACEHOLDER: &'static str = "enter url";

/// What an editor shows while it is empty.
pub const EDITOR_PLACEHOLDER: &'static str = "reqeust body";

impl HttpMethod {
    /// The method as it is written on the wire and in the picker.
    pub open spec fn name(self) -> Seq<char> {
        match self {
            HttpMethod::Get => "GET"@,
            HttpMethod::Post => "POST"@,
            HttpMethod::Put => "PUT"@,
            HttpMethod::Delete => "DELETE"@,
        }
    }

    /// The method's name as an owned string.
    pub fn to_string(&self) -> (text: String)
        ensures
            text@ == self.name(),
    {
        match self {
            HttpMethod::Get => "GET".to_owned(),
            HttpMethod::Post => "POST".to_owned(),
            HttpMethod::Put => "PUT".to_owned(),
            HttpMethod::Delete => "DELETE".to_owned(),
        }
    }
}

impl RequestTab {
    /// The caption of the tab's button.
    pub open spec fn caption(self) -> Seq<char> {
        match self {
            RequestTab::Params => "Params"@,
            RequestTab::Headers => "Headers"@,
            RequestTab::Body => "Body"@,
        }
    }

    /// The caption of the tab's button as an owned string.
    pub fn label(&self) -> (text: String)
        ensures
            text@ == self.caption(),
    {
        match self {
            RequestTab::Params => "Params".to_owned(),
            RequestTab::Headers => "Headers".to_owned(),
            RequestTab::Body => "Body".to_owned(),
        }
    }
}

impl Clone for Message {
    fn clone(&self) -> (copy: Self)
        ensures
            copy == *self,
    {
        match self {
            Message::Navigate(route) => Message::Navigate(*route),
            Message::Request => Message::Request,
            Message::UpdateUrl(url) => Message::UpdateUrl(url.clone()),
            Message::UpdateHttpMethod(method) => Message::UpdateHttpMethod(*method),
            Message::Done(Ok(text)) => Message::Done(Ok(text.clone())),
            Message::Done(Err(text)) => Message::Done(Err(text.clone())),
            Message::RequestUpdate(action) => Message::RequestUpdate(action.clone()),
            Message::ResponseAction(action) => Message::ResponseAction(action.clone()),
            Message::SelectRequestTab(tab) => Message::SelectRequestTab(*tab),
        }
    }
}

impl State {
    /// The text in the response editor.
    pub open spec fn response_text(self) -> Seq<char> {
        buffer_text(self.response)
    }

    /// The text in the request editor.
    pub open spec fn request_text(self) -> Seq<char> {
        buffer_text(self.request)
    }

    /// The state of a screen that was just created: no URL, idle, `GET`,
    /// both editors as a buffer made from no text, the first pane.
    pub open spec fn initial(self) -> bool {
        &&& self.url == Seq::<char>::empty()
        &&& !self.loading
        &&& self.http_method == HttpMethod::Get
        &&& self.response_text() == laid_out(Seq::<char>::empty())
        &&& self.request_text() == laid_out(Seq::<char>::empty())
        &&& self.selected_request_tab == RequestTab::Params
    }
}

/// The text that a message reporting the end of a call brings: the body, or
/// the report of the failure.
pub open spec fn reported_text(result: Result<String, String>) -> Seq<char> {
    match result {
        Ok(text) => text@,
        Err(text) => text@,
    }
}

/// Whether `message` takes the screen from `pre` to `post`.
///
/// A message changes the one field it is about and no other. The end of a
/// call lowers the loading flag and replaces the response buffer by one
/// made from the reported text, whether that is a body or a failure; a
/// stray separator in that text is shown as a line feed, so a text without
/// one is shown as it is. An interaction with an editor is handed to that
/// editor's buffer, unless it is refused; what it does there is the
/// toolkit's business, so `post` may hold any buffer in that place.
pub open spec fn steps(pre: State, message: Message, post: State) -> bool {
    match message {
        Message::Navigate(_) => post == pre,
        Message::Request => post == State { loading: true, ..pre },
        Message::UpdateUrl(url) => post == State { url: url@, ..pre },
        Message::UpdateHttpMethod(method) => post == State { http_method: method, ..pre },
        Message::Done(result) => {
            &&& post == State { loading: false, response: post.response, ..pre }
            &&& post.response_text() == laid_out(rewritten(reported_text(result), true))
        },
        Message::RequestUpdate(action) => {
            &&& post == State { request: post.request, ..pre }
            &&& action.is_refused() ==> post.request == pre.request
        },
        Message::ResponseAction(action) => {
            &&& post == State { response: post.response, ..pre }
            &&& action.is_refused() ==> post.response == pre.response
        },
        Message::SelectRequestTab(tab) => post == State { selected_request_tab: tab, ..pre },
    }
}

/// Whether handling `message` in state `pre` asks for `effects`: "send"
/// asks for one call, with the method and URL of that moment, and no other
/// message asks for anything.
pub open spec fn emits(pre: State, message: Message, effects: Seq<Effect>) -> bool {
    match message {
        Message::Request => {
            &&& effects.len() == 1
            &&& effects[0] matches Effect::Send(call)
            &&& call.method == pre.http_method
            &&& call.url@ == pre.url
        },
        _ => effects.len() == 0,
    }
}

impl HomeScreen {
    /// The editors hold only what a buffer can hold.
    #[verifier::type_invariant]
    spec fn holds_clean_texts(self) -> bool {
        clean(buffer_text(self.response)) && clean(buffer_text(self.request))
    }

    /// The screen as the contracts see it.
    pub closed spec fn state(&self) -> State {
        State {
            url: self.url@,
            loading: self.loading,
            http_method: self.http_method,
            response: self.response,
            request: self.request,
            selected_request_tab: self.selected_request_tab,
        }
    }
}

/// Makes the buffer that shows `text`: `text` itself where a buffer can be
/// made from it, else `text` with a line feed for each stray separator.
fn shown(text: String) -> (buffer: TextBuffer)
    ensures
        buffer_text(buffer) == laid_out(rewritten(text@, true)),
        clean(buffer_text(buffer)),
{
    if is_shapeable(text.as_str()) {
        proof {
            lemma_rewritten_keeps_what_can_be_held(text@, true);
        }
        TextBuffer::with_text(text.as_str())
    } else {
        proof {
            lemma_rewritten_can_be_held(text@, true);
        }
        let fitted = rewrite(text.as_str(), true);
        TextBuffer::with_text(fitted.as_str())
    }
}

impl Default for HomeScreen {
    /// A screen as it is when the application starts.
    fn default() -> (screen: Self)
        ensures
            screen.state().initial(),
    {
        HomeScreen {
            url: String::new(),
            http_method: HttpMethod::Get,
            loading: false,
            response: TextBuffer::new(),
            request: TextBuffer::new(),
            selected_request_tab: RequestTab::Params,
        }
    }
}

impl Screen<Message> for HomeScreen {
    type View = HomeView;

    /// Handles one message as [`steps`] says and asks for what [`emits`]
    /// says. Nothing is waited for: "send" returns at once, with the screen
    /// loading and the call handed out, and a further "send" while loading
    /// hands out a further call.
    fn update(&mut self, message: Message) -> (effects: Vec<Effect>)
        ensures
            steps(old(self).state(), message, final(self).state()),
            emits(old(self).state(), message, effects@),
    {
        proof {
            use_type_invariant(&*self);
        }
        let mut effects: Vec<Effect> = Vec::new();
        match message {
            Message::Request => {
                self.loading = true;
                let call = HttpCall { method: self.http_method, url: self.url.clone() };
                effects.push(Effect::Send(call));
            },
            Message::UpdateUrl(url) => {
                self.url = url;
            },
            Message::UpdateHttpMethod(method) => {
                self.http_method = method;
            },
            Message::RequestUpdate(action) => {
                match action.fitted() {
                    Some(Action::Edit(edit)) => self.request.edit(edit),
                    Some(other) => self.request.interact(other),
                    None => {},
                }
            },
            Message::ResponseAction(action) => {
                match action.fitted() {
                    Some(Action::Edit(edit)) => self.response.edit(edit),
                    Some(other) => self.response.interact(other),
                    None => {},
                }
            },
            Message::Done(result) => {
                self.loading = false;
                match result {
                    Ok(text) => {
                        self.response = shown(text);
                    },
                    Err(error) => {
                        self.response = shown(error);
                    },
                }
            },
            Message::SelectRequestTab(tab) => {
                self.selected_request_tab = tab;
            },
            Message::Navigate(_) => {},
        }
        effects
    }

    /// Describes the screen as [`HomeView::depicts`] says.
    fn view(&self) -> (shown: HomeView)
        ensures
            shown.depicts(self.state()),
    {
        let methods = vec![HttpMethod::Get, HttpMethod::Post, HttpMethod::Put, HttpMethod::Delete];
        let tabs = vec![
            tab_button(RequestTab::Params),
            tab_button(RequestTab::Headers),
            tab_button(RequestTab::Body),
        ];
        let send = if self.loading {
            SendButton { label: "Loading ...".to_owned(), on_press: None }
        } else {
            SendButton { label: "Send".to_owned(), on_press: Some(Message::Request) }
        };
        HomeView {
            methods,
            selected_method: self.http_method,
            url: self.url.clone(),
            url_placeholder: URL_PLACEHOLDER.to_owned(),
            send,
            tabs,
            editor_placeholder: EDITOR_PLACEHOLDER.to_owned(),
        }
    }
}

impl TabButton {
    /// Whether this is the button of `tab`: it bears the tab's caption and
    /// a press selects the tab. The first tab stands out, whichever tab is
    /// selected: the selection does not show yet.
    pub open spec fn stands_for(self, tab: RequestTab) -> bool {
        &&& self.label@ == tab.caption()
        &&& self.highlighted == (tab == RequestTab::Params)
        &&& self.on_press == Message::SelectRequestTab(tab)
    }
}

/// Describes the button of `tab`.
pub fn tab_button(tab: RequestTab) -> (button: TabButton)
    ensures
        button.stands_for(tab),
{
    TabButton {
        label: tab.label(),
        highlighted: tab == RequestTab::Params,
        on_press: Message::SelectRequestTab(tab),
    }
}

/// What the method picker sends when `method` is picked.
pub fn on_method_picked(method: HttpMethod) -> (message: Message)
    ensures
        message == Message::UpdateHttpMethod(method),
{
    Message::UpdateHttpMethod(method)
}

/// What the URL field sends when its text becomes `url`.
pub fn on_url_input(url: String) -> (message: Message)
    ensures
        message == Message::UpdateUrl(url),
{
    Message::UpdateUrl(url)
}

/// What the request editor sends on an interaction.
pub fn on_request_action(action: Action) -> (message: Message)
    ensures
        message == Message::RequestUpdate(action),
{
    Message::RequestUpdate(action)
}

/// What the response editor sends on an interaction.
pub fn on_response_action(action: Action) -> (message: Message)
    ensures
        message == Message::ResponseAction(action),
{
    Message::ResponseAction(action)
}

impl HomeView {
    /// Whether this is the view of a screen in `state`: the four methods
    /// in their fixed order, the selected method and the URL of the state,
    /// the buttons of the three tabs in their fixed order, the two
    /// placeholders, and a button that reads "Send" and sends
    /// [`Message::Request`] while idle, and reads "Loading ..." and is
    /// disabled while loading.
    pub open spec fn depicts(self, state: State) -> bool {
        &&& self.methods@ =~= seq![
            HttpMethod::Get,
            HttpMethod::Post,
            HttpMethod::Put,
            HttpMethod::Delete,
        ]
        &&& self.selected_method == state.http_method
        &&& self.url@ == state.url
        &&& self.send.label@ == if state.loading {
            "Loading ..."@
        } else {
            "Send"@
        }
        &&& self.send.on_press == if state.loading {
            None
        } else {
            Some(Message::Request)
        }
        &&& self.url_placeholder@ == URL_PLACEHOLDER@
        &&& self.editor_placeholder@ == EDITOR_PLACEHOLDER@
        &&& self.tabs@.len() == 3
        &&& self.tabs@[0].stands_for(RequestTab::Params)
        &&& self.tabs@[1].stands_for(RequestTab::Headers)
        &&& self.tabs@[2].stands_for(RequestTab::Body)
    }
}

impl HomeScreen {
    /// The URL in the URL field.
    pub fn url(&self) -> (url: &str)
        ensures
            url@ == self.state().url,
    {
        self.url.as_str()
    }

    /// Whether a call is under way.
    pub fn is_loading(&self) -> (loading: bool)
        ensures
            loading == self.state().loading,
    {
        self.loading
    }

    /// The selected method.
    pub fn http_method(&self) -> (method: HttpMethod)
        ensures
            method == self.state().http_method,
    {
        self.http_method
    }

    /// The selected pane of the request area.
    pub fn selected_request_tab(&self) -> (tab: RequestTab)
        ensures
            tab == self.state().selected_request_tab,
    {
        self.selected_request_tab
    }

    /// The buffer of the request editor.
    pub fn request(&self) -> (buffer: &TextBuffer)
        ensures
            *buffer == self.state().request,
    {
        &self.request
    }

    /// The buffer of the response editor.
    pub fn response(&self) -> (buffer: &TextBuffer)
        ensures
            *buffer == self.state().response,
    {
        &self.response
    }

    /// The text in the request editor.
    pub fn request_text(&self) -> (text: String)
        ensures
            text@ == self.state().request_text(),
    {
        self.request.text()
    }

    /// The text in the response editor.
    pub fn response_text(&self) -> (text: String)
        ensures
            text@ == self.state().response_text(),
    {
        self.response.text()
    }
}

/// Whether `states` is a run of the screen under `messages`: the screen
/// starts in `states[0]` and message `i` takes it from `states[i]` to
/// `states[i + 1]`.
pub open spec fn is_run(states: Seq<State>, messages: Seq<Message>) -> bool {
    &&& states.len() == messages.len() + 1
    &&& forall|i: int|
        0 <= i < messages.len() ==> steps(states[i], #[trigger] messages[i], states[i + 1])
}

/// "Send" dispatches the method that is selected when it is pressed: the
/// call it asks for carries the method, and the URL, of the state in which
/// the message is handled.
pub proof fn lemma_send_dispatches_selected_method(
    pre: State,
    post: State,
    effects: Seq<Effect>,
)
    requires
        steps(pre, Message::Request, post),
        emits(pre, Message::Request, effects),
    ensures
        effects.len() == 1,
        effects[0] matches Effect::Send(call) && call.method == pre.http_method,
        effects[0] matches Effect::Send(call) && call.url@ == pre.url,
        post.http_method == pre.http_method,
{
}

/// Only picking a method changes the selected method.
pub proof fn lemma_selection_lasts(pre: State, message: Message, post: State)
    requires
        steps(pre, message, post),
    ensures
        message matches Message::UpdateHttpMethod(method) ==> post.http_method == method,
        !(message is UpdateHttpMethod) ==> post.http_method == pre.http_method,
{
}

/// In any run, a "send" dispatches the method that was picked last: if
/// message `picked` picks `method`, no message between it and the "send"
/// at `sent` picks another, then the call asked for at `sent` carries
/// `method`.
pub proof fn lemma_send_dispatches_last_pick(
    states: Seq<State>,
    messages: Seq<Message>,
    picked: int,
    sent: int,
    method: HttpMethod,
    effects: Seq<Effect>,
)
    requires
        is_run(states, messages),
        0 <= picked < sent < messages.len(),
        messages[picked] == Message::UpdateHttpMethod(method),
        forall|k: int| picked < k < sent ==> !(#[trigger] messages[k] is UpdateHttpMethod),
        messages[sent] is Request,
        emits(states[sent], messages[sent], effects),
    ensures
        effects.len() == 1,
        effects[0] matches Effect::Send(call) && call.method == method,
{
    lemma_pick_lasts(states, messages, picked, sent, method);
}

/// In any run, the method picked by message `picked` stays selected up to
/// state `now` when no message in between picks another.
proof fn lemma_pick_lasts(
    states: Seq<State>,
    messages: Seq<Message>,
    picked: int,
    now: int,
    method: HttpMethod,
)
    requires
        is_run(states, messages),
        0 <= picked < now <= messages.len(),
        messages[picked] == Message::UpdateHttpMethod(method),
        forall|k: int| picked < k < now ==> !(#[trigger] messages[k] is UpdateHttpMethod),
    ensures
        states[now].http_method == method,
    decreases now - picked,
{
    if now > picked + 1 {
        lemma_pick_lasts(states, messages, picked, now - 1, method);
    }
    assert(steps(states[now - 1], messages[now - 1], states[now]));
}

/// Picking a tab changes the selected tab and nothing else.
pub proof fn lemma_select_tab_changes_only_the_tab(pre: State, tab: RequestTab, post: State)
    requires
        steps(pre, Message::SelectRequestTab(tab), post),
    ensures
        post.selected_request_tab == tab,
        post.url == pre.url,
        post.loading == pre.loading,
        post.http_method == pre.http_method,
        post.response == pre.response,
        post.request == pre.request,
{
}

/// How one message changes the loading flag: "send" raises it, the end of a
/// call lowers it, and no other message touches it.
pub proof fn lemma_loading_step(pre: State, message: Message, post: State)
    requires
        steps(pre, message, post),
    ensures
        message is Request ==> post.loading,
        message is Done ==> !post.loading,
        !(message is Request) && !(message is Done) ==> post.loading == pre.loading,
{
}

/// In any run, the screen is loading from a "send" until the end of a call
/// is reported: if message `sent` is "send" and none of the messages after
/// it and before state `now` reports the end of a call, the screen is
/// loading in state `now`.
pub proof fn lemma_loading_lasts_until_done(
    states: Seq<State>,
    messages: Seq<Message>,
    sent: int,
    now: int,
)
    requires
        is_run(states, messages),
        0 <= sent < now <= messages.len(),
        messages[sent] is Request,
        forall|k: int| sent < k < now ==> !(#[trigger] messages[k] is Done),
    ensures
        states[now].loading,
    decreases now - sent,
{
    if now > sent + 1 {
        lemma_loading_lasts_until_done(states, messages, sent, now - 1);
    }
    assert(steps(states[now - 1], messages[now - 1], states[now]));
}

/// A body that arrives replaces whatever the response editor held: the
/// editor's text afterwards is the body as the editor lays it out, from
/// whichever state the screen came. A body without a stray separator is
/// handed to the editor as it is.
pub proof fn lemma_body_replaces_response(pre: State, body: String, post: State)
    requires
        steps(pre, Message::Done(Ok(body)), post),
    ensures
        post.response_text() == laid_out(rewritten(body@, true)),
        shapeable(body@) ==> post.response_text() == laid_out(body@),
        !post.loading,
{
    if shapeable(body@) {
        lemma_rewritten_keeps_what_can_be_held(body@, true);
    }
}

/// However a call ends, the message that reports it puts the text to be
/// shown for that end into the response editor and ends the loading: the
/// body, or the failure's report behind its prefix, as it is where it has
/// no stray separator.
pub proof fn lemma_outcome_reaches_response(
    pre: State,
    outcome: CallOutcome,
    message: Message,
    post: State,
)
    requires
        reports(message, outcome),
        steps(pre, message, post),
    ensures
        post.response_text() == laid_out(rewritten(shown_text(outcome), true)),
        shapeable(shown_text(outcome)) ==> post.response_text() == laid_out(shown_text(outcome)),
        !post.loading,
{
    if shapeable(shown_text(outcome)) {
        lemma_rewritten_keeps_what_can_be_held(shown_text(outcome), true);
    }
}

/// A failure is shown exactly as a body of the same text would be: the two
/// states agree on the response text and on every other field, so nothing
/// in the state tells a reported failure from a response.
pub proof fn lemma_failure_is_shown_like_a_body(
    pre: State,
    text: String,
    after_body: State,
    after_failure: State,
)
    requires
        steps(pre, Message::Done(Ok(text)), after_body),
        steps(pre, Message::Done(Err(text)), after_failure),
    ensures
        after_failure.response_text() == laid_out(rewritten(text@, true)),
        after_failure.response_text() == after_body.response_text(),
        after_failure.loading == after_body.loading,
        after_failure.url == after_body.url,
        after_failure.http_method == after_body.http_method,
        after_failure.request == after_body.request,
        after_failure.selected_request_tab == after_body.selected_request_tab,
{
}

} // verus!
