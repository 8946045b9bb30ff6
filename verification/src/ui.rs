//! The browser's navigation: the page on display, the history behind it,
//! and what each thing the user does leads to. Drawing, and fetching what
//! is asked for, are left to the program around it.

pub mod gemtext;

use crate::text::{chars_of, matches_at, same_text, starts_with};
use vstd::prelude::*;

verus! {

/// Whether a page is on its way.
#[derive(Debug)]
pub enum AppState {
    /// A page is on display and nothing is asked for.
    Browsing,
    /// A page was asked for and has not arrived.
    Loading,
    /// A page arrived and waits to be taken up: its location, the type of
    /// its content, and the content.
    NewContent(String, String, String),
}

impl Default for AppState {
    fn default() -> (r: Self)
        ensures
            r@ == AppStateView::Browsing,
    {
        AppState::Browsing
    }
}

/// The mathematical value of an [`AppState`].
pub enum AppStateView {
    Browsing,
    Loading,
    NewContent(Seq<char>, Seq<char>, Seq<char>),
}

impl View for AppState {
    type V = AppStateView;

    open spec fn view(&self) -> AppStateView {
        match *self {
            AppState::Browsing => AppStateView::Browsing,
            AppState::Loading => AppStateView::Loading,
            AppState::NewContent(url, mimetype, contents) => AppStateView::NewContent(
                url@,
                mimetype@,
                contents@,
            ),
        }
    }
}

/// The browser: the locations visited, oldest first, the text of the
/// address bar, the page on display with its type, and whether another is
/// on its way.
#[derive(Debug)]
pub struct App {
    url_stack: Vec<String>,
    url: String,
    contents: String,
    mimetype: String,
    state: AppState,
}

/// The mathematical value of an [`App`].
pub struct AppView {
    pub url_stack: Seq<Seq<char>>,
    pub url: Seq<char>,
    pub contents: Seq<char>,
    pub mimetype: Seq<char>,
    pub state: AppStateView,
}

impl View for App {
    type V = AppView;

    closed spec fn view(&self) -> AppView {
        AppView {
            url_stack: self.url_stack.deep_view(),
            url: self.url@,
            contents: self.contents@,
            mimetype: self.mimetype@,
            state: self.state@,
        }
    }
}

/// What the user did.
#[derive(Debug)]
pub enum UserAction {
    /// Asked for the page before this one.
    Back,
    /// Confirmed the text of the address bar.
    Submit,
    /// Activated a link to this location.
    Follow(String),
}

/// The mathematical value of a [`UserAction`].
pub enum UserActionView {
    Back,
    Submit,
    Follow(Seq<char>),
}

impl View for UserAction {
    type V = UserActionView;

    open spec fn view(&self) -> UserActionView {
        match *self {
            UserAction::Back => UserActionView::Back,
            UserAction::Submit => UserActionView::Submit,
            UserAction::Follow(url) => UserActionView::Follow(url@),
        }
    }
}

/// What the program around the browser is asked to do.
#[derive(Debug)]
pub enum Command {
    /// Request `target`, seen from `base`, and deliver what comes back.
    Fetch { base: String, target: String },
    /// Hand the location to the system's web browser.
    OpenExternal { url: String },
}

/// The mathematical value of a [`Command`].
pub enum CommandView {
    Fetch { base: Seq<char>, target: Seq<char> },
    OpenExternal { url: Seq<char> },
}

impl View for Command {
    type V = CommandView;

    open spec fn view(&self) -> CommandView {
        match *self {
            Command::Fetch { base, target } => CommandView::Fetch { base: base@, target: target@ },
            Command::OpenExternal { url } => CommandView::OpenExternal { url: url@ },
        }
    }
}

/// The view of an optional command.
pub open spec fn command_view(command: Option<Command>) -> Option<CommandView> {
    match command {
        Some(command) => Some(command@),
        None => None,
    }
}

/// A browser that has shown nothing yet.
pub open spec fn initial() -> AppView {
    AppView {
        url_stack: Seq::empty(),
        url: Seq::empty(),
        contents: Seq::empty(),
        mimetype: Seq::empty(),
        state: AppStateView::Browsing,
    }
}

/// The location last visited, or the empty text where there is none.
pub open spec fn current(url_stack: Seq<Seq<char>>) -> Seq<char> {
    if url_stack.len() > 0 {
        url_stack.last()
    } else {
        Seq::empty()
    }
}

/// Going to `url`: the browser waits for the page, and the page is
/// requested as seen from the location last visited.
pub open spec fn went_to(app: AppView, url: Seq<char>) -> (AppView, CommandView) {
    (
        AppView { state: AppStateView::Loading, ..app },
        CommandView::Fetch { base: current(app.url_stack), target: url },
    )
}

/// Following `url`: a location that begins with `http` goes to the
/// system's web browser and changes nothing here; any other is gone to.
pub open spec fn navigated(app: AppView, url: Seq<char>) -> (AppView, CommandView) {
    if starts_with(url, "http"@) {
        (app, CommandView::OpenExternal { url })
    } else {
        went_to(app, url)
    }
}

/// Taking up a page that has arrived: it goes on display, its location
/// into the address bar and onto the history. The flag says whether a
/// page is still on its way.
pub open spec fn polled(app: AppView) -> (AppView, bool) {
    match app.state {
        AppStateView::NewContent(url, mimetype, contents) => (
            AppView {
                url_stack: app.url_stack.push(url),
                url,
                contents,
                mimetype,
                state: AppStateView::Browsing,
            },
            false,
        ),
        AppStateView::Loading => (app, true),
        AppStateView::Browsing => (app, false),
    }
}

/// The history without its last entry.
pub open spec fn popped(url_stack: Seq<Seq<char>>) -> Seq<Seq<char>> {
    if url_stack.len() > 0 {
        url_stack.drop_last()
    } else {
        url_stack
    }
}

/// What a user's action does. Going back drops the last entry of the
/// history and follows the entry before it, where there is one.
/// Confirming the address bar goes to its text. Activating a link follows
/// it.
pub open spec fn acted(app: AppView, action: UserActionView) -> (AppView, Option<CommandView>) {
    match action {
        UserActionView::Back => {
            let back = AppView { url_stack: popped(app.url_stack), ..app };
            if back.url_stack.len() > 0 {
                let (after, command) = navigated(back, back.url_stack.last());
                (after, Some(command))
            } else {
                (back, None)
            }
        },
        UserActionView::Submit => {
            let (after, command) = went_to(app, app.url);
            (after, Some(command))
        },
        UserActionView::Follow(url) => {
            let (after, command) = navigated(app, url);
            (after, Some(command))
        },
    }
}

impl Default for App {
    fn default() -> (r: Self)
        ensures
            r@ == initial(),
    {
        let r = App {
            url_stack: Vec::new(),
            url: String::new(),
            contents: String::new(),
            mimetype: String::new(),
            state: AppState::Browsing,
        };
        assert(r.url_stack.deep_view() =~= Seq::<Seq<char>>::empty());
        r
    }
}

impl App {
    /// The location last visited, or the empty text.
    fn current_url(&self) -> (r: String)
        ensures
            r@ == current(self@.url_stack),
    {
        let n: usize = self.url_stack.len();
        if n > 0 {
            self.url_stack[n - 1].clone()
        } else {
            String::new()
        }
    }

    /// Goes to `url`: the browser waits for the page, and the command says
    /// what to request.
    pub fn go_to_url(&mut self, url: String) -> (command: Command)
        ensures
            (final(self)@, command@) == went_to(old(self)@, url@),
    {
        let base: String = self.current_url();
        self.state = AppState::Loading;
        Command::Fetch { base, target: url }
    }

    /// Follows `url`, to the system's web browser or to the page itself.
    pub fn navigate(&mut self, url: String) -> (command: Command)
        ensures
            (final(self)@, command@) == navigated(old(self)@, url@),
    {
        let chars: Vec<char> = chars_of(url.as_str());
        let prefix: Vec<char> = chars_of("http");
        if matches_at(chars.as_slice(), prefix.as_slice(), 0) {
            Command::OpenExternal { url }
        } else {
            self.go_to_url(url)
        }
    }

    /// Hands the browser the page that a request brought.
    pub fn deliver(&mut self, url: String, mimetype: String, contents: String)
        ensures
            final(self)@ == (AppView {
                state: AppStateView::NewContent(url@, mimetype@, contents@),
                ..old(self)@
            }),
    {
        self.state = AppState::NewContent(url, mimetype, contents);
    }

    /// Takes up a page that has arrived, and says whether one is still on
    /// its way.
    pub fn poll(&mut self) -> (loading: bool)
        ensures
            (final(self)@, loading) == polled(old(self)@),
    {
        match &self.state {
            AppState::NewContent(url, mimetype, contents) => {
                let url: String = url.clone();
                let mimetype: String = mimetype.clone();
                let contents: String = contents.clone();
                let ghost before = self.url_stack.deep_view();
                self.url_stack.push(url.clone());
                assert(self.url_stack.deep_view() =~= before.push(url@));
                self.url = url;
                self.contents = contents;
                self.mimetype = mimetype;
                self.state = AppState::Browsing;
                false
            },
            AppState::Loading => true,
            AppState::Browsing => false,
        }
    }

    /// Does what the user asked, and says what is left for the program to
    /// do.
    pub fn act(&mut self, action: UserAction) -> (command: Option<Command>)
        ensures
            (final(self)@, command_view(command)) == acted(old(self)@, action@),
    {
        match action {
            UserAction::Back => {
                let ghost before = self.url_stack.deep_view();
                self.url_stack.pop();
                assert(self.url_stack.deep_view() =~= popped(before));
                let n: usize = self.url_stack.len();
                if n > 0 {
                    let url: String = self.url_stack[n - 1].clone();
                    Some(self.navigate(url))
                } else {
                    None
                }
            },
            UserAction::Submit => {
                let url: String = self.url.clone();
                Some(self.go_to_url(url))
            },
            UserAction::Follow(url) => Some(self.navigate(url)),
        }
    }

    /// Replaces the text of the address bar.
    pub fn set_url(&mut self, url: String)
        ensures
            final(self)@ == (AppView { url: url@, ..old(self)@ }),
    {
        self.url = url;
    }

    /// The text of the address bar.
    pub fn url(&self) -> (r: &str)
        ensures
            r@ == self@.url,
    {
        self.url.as_str()
    }

    /// The page on display.
    pub fn contents(&self) -> (r: &str)
        ensures
            r@ == self@.contents,
    {
        self.contents.as_str()
    }

    /// The type of the page on display.
    pub fn mimetype(&self) -> (r: &str)
        ensures
            r@ == self@.mimetype,
    {
        self.mimetype.as_str()
    }

    /// Whether the page on display is to be read line by line, as
    /// `text/gemini`; a page of any other type is shown as it is.
    pub fn is_gemtext(&self) -> (r: bool)
        ensures
            r == (self@.mimetype == "text/gemini"@),
    {
        let mimetype: Vec<char> = chars_of(self.mimetype.as_str());
        let gemtext: Vec<char> = chars_of("text/gemini");
        same_text(mimetype.as_slice(), gemtext.as_slice())
    }

    /// Whether a page is on its way.
    pub fn is_loading(&self) -> (r: bool)
        ensures
            r == (self@.state is Loading),
    {
        match self.state {
            AppState::Loading => true,
            _ => false,
        }
    }

    /// Whether there is a page to go back to.
    pub fn can_go_back(&self) -> (r: bool)
        ensures
            r == (self@.url_stack.len() > 1),
    {
        self.url_stack.len() > 1
    }

    /// The number of locations in the history.
    pub fn history_len(&self) -> (r: usize)
        ensures
            r == self@.url_stack.len(),
    {
        self.url_stack.len()
    }

    /// The program's name.
    pub fn name(&self) -> (r: &'static str)
        ensures
            r@ == "RGC Gemini Browser"@,
    {
        "RGC Gemini Browser"
    }
}

} // verus!
