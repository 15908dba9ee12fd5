//! Applet state and the decisions taken on each message: popup navigation,
//! opening and closing the popup, config reloads and link/launcher requests.
//!
//! The shell work itself (creating and destroying popup surfaces, spawning
//! processes) is described by an [`Effect`] that the host runs.

use vstd::prelude::*;

use crate::config::Config;

verus! {

/// Handle of a shell window (the popup surface).
#[derive(Clone, Copy, Debug, PartialEq, Eq, Hash, Structural)]
pub struct WindowId(pub u64);

/// Which popup page is currently shown.
///
/// - `Main` is the header row only for now (stats come later).
/// - `Settings` is title-only for now.
/// - `About` is the full about page.
#[derive(Clone, Copy, Debug, PartialEq, Eq, Structural)]
pub enum PopupPage {
    /// Main header with info/settings icons.
    Main,
    /// Settings placeholder page.
    Settings,
    /// Full about page.
    About,
}

impl Default for PopupPage {
    fn default() -> (p: PopupPage)
        ensures
            p == PopupPage::Main,
    {
        PopupPage::Main
    }
}

/// Everything that can happen: clicks, popup close, config edits, links.
#[derive(Clone, Debug, PartialEq, Eq)]
pub enum Message {
    /// Panel pill clicked.
    TogglePopup,
    /// A popup window was closed by the shell.
    PopupClosed(WindowId),
    /// Show the main header page.
    ShowMain,
    /// Show the settings title page.
    ShowSettings,
    /// Show the full about page.
    ShowAbout,
    /// Open a URL from the about page.
    OpenUrl(String),
    /// Launch the system monitor.
    LaunchMonitor,
    /// The stored config changed.
    UpdateConfig(Config),
}

/// Work the host performs after a message was handled.
#[derive(Clone, Debug, PartialEq, Eq)]
pub enum Effect {
    /// Nothing to do.
    Nothing,
    /// Create a popup anchored to the panel button; once the shell has given
    /// it a window, the host reports it through [`AppModel::popup_opened`].
    OpenPopup,
    /// Ask the shell to destroy this popup window.
    DestroyPopup(WindowId),
    /// Open this URL in the default browser.
    OpenUrl(String),
    /// Launch the system monitor (see [`crate::launch::MonitorLaunch`]).
    LaunchMonitor,
}

/// The abstract state of the applet.
pub struct ModelView {
    /// Open popup window, or `None` when closed.
    pub popup: Option<WindowId>,
    /// Current popup sub-page.
    pub page: PopupPage,
    /// Persistent user settings.
    pub config: Config,
}

/// All applet state in one struct (the host calls `update`, then renders).
pub struct AppModel {
    /// Open popup window id, or `None` when closed.
    popup: Option<WindowId>,
    /// Persistent user settings.
    config: Config,
    /// Current popup sub-page.
    page: PopupPage,
}

impl View for AppModel {
    type V = ModelView;

    closed spec fn view(&self) -> ModelView {
        ModelView { popup: self.popup, page: self.page, config: self.config }
    }
}

/// The state after a close: no popup, navigation back on the main page.
pub open spec fn closed_state(s: ModelView) -> ModelView {
    ModelView { popup: None, page: PopupPage::Main, config: s.config }
}

/// What handling `m` in state `s` gives: the next state and the host's work.
pub open spec fn step(s: ModelView, m: Message) -> (ModelView, Effect) {
    match m {
        Message::ShowMain => (ModelView { page: PopupPage::Main, ..s }, Effect::Nothing),
        Message::ShowSettings => (ModelView { page: PopupPage::Settings, ..s }, Effect::Nothing),
        Message::ShowAbout => (ModelView { page: PopupPage::About, ..s }, Effect::Nothing),
        Message::OpenUrl(url) => (s, Effect::OpenUrl(url)),
        Message::LaunchMonitor => (s, Effect::LaunchMonitor),
        Message::UpdateConfig(config) => (ModelView { config: config, ..s }, Effect::Nothing),
        Message::TogglePopup => match s.popup {
            Some(p) => (closed_state(s), Effect::DestroyPopup(p)),
            None => (s, Effect::OpenPopup),
        },
        Message::PopupClosed(id) => if s.popup == Some(id) {
            (closed_state(s), Effect::Nothing)
        } else {
            (s, Effect::Nothing)
        },
    }
}

impl AppModel {
    /// Startup state: popup closed, on the main page, with `config`.
    pub fn init(config: Config) -> (m: AppModel)
        ensures
            m@.popup is None,
            m@.page == PopupPage::Main,
            m@.config == config,
    {
        AppModel { popup: None, config, page: PopupPage::Main }
    }

    /// The open popup window, if any.
    pub fn popup(&self) -> (p: Option<WindowId>)
        ensures
            p == self@.popup,
    {
        self.popup
    }

    /// The page the popup shows.
    pub fn page(&self) -> (p: PopupPage)
        ensures
            p == self@.page,
    {
        self.page
    }

    /// The current settings.
    pub fn config(&self) -> (c: &Config)
        ensures
            *c == self@.config,
    {
        &self.config
    }

    /// The shell asked to close window `id` (e.g. a click outside the popup):
    /// it is answered with a `PopupClosed` for that window.
    pub fn on_close_requested(&self, id: WindowId) -> (m: Option<Message>)
        ensures
            m == Some(Message::PopupClosed(id)),
    {
        Some(Message::PopupClosed(id))
    }

    /// The shell created the popup requested by [`Effect::OpenPopup`] as
    /// window `id`; remember it as the open popup.
    pub fn popup_opened(&mut self, id: WindowId)
        ensures
            final(self)@ == (ModelView { popup: Some(id), ..old(self)@ }),
    {
        self.popup = Some(id);
    }

    /// Handle a message and say what the host has to do next.
    pub fn update(&mut self, message: Message) -> (effect: Effect)
        ensures
            (final(self)@, effect) == step(old(self)@, message),
    {
        match message {
            Message::ShowMain => {
                self.page = PopupPage::Main;
                Effect::Nothing
            },
            Message::ShowSettings => {
                self.page = PopupPage::Settings;
                Effect::Nothing
            },
            Message::ShowAbout => {
                self.page = PopupPage::About;
                Effect::Nothing
            },
            Message::OpenUrl(url) => Effect::OpenUrl(url),
            Message::LaunchMonitor => Effect::LaunchMonitor,
            Message::UpdateConfig(config) => {
                self.config = config;
                Effect::Nothing
            },
            Message::TogglePopup => {
                match self.popup.take() {
                    Some(p) => {
                        // Return to main so reopening starts fresh.
                        self.page = PopupPage::Main;
                        Effect::DestroyPopup(p)
                    },
                    None => Effect::OpenPopup,
                }
            },
            Message::PopupClosed(id) => {
                let ours = match self.popup {
                    Some(p) => p == id,
                    None => false,
                };
                if ours {
                    self.popup = None;
                    self.page = PopupPage::Main;
                }
                Effect::Nothing
            },
        }
    }
}

} // verus!
