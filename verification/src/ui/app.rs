//! The root of the client: it shows the login page or the main page, and
//! moves between them.

use crate::models::connection::{Session, SessionView};
use crate::ui::login::LoginOutput;
use crate::ui::main_page::MainOutput;
use vstd::prelude::*;

verus! {

/// The page that is shown.
#[derive(Debug, Clone, Copy, PartialEq, Eq, Structural)]
pub enum AppView {
    Login,
    Main,
}

/// What the pages tell the root.
#[derive(Debug, PartialEq, Eq)]
pub enum AppMsg {
    LoggedIn(Session),
    Logout,
}

pub ghost enum AppMsgView {
    LoggedIn(SessionView),
    Logout,
}

impl View for AppMsg {
    type V = AppMsgView;

    open spec fn view(&self) -> AppMsgView {
        match self {
            AppMsg::LoggedIn(session) => AppMsgView::LoggedIn(session@),
            AppMsg::Logout => AppMsgView::Logout,
        }
    }
}

impl AppMsg {
    /// The message for what the login page tells.
    pub fn from_login(output: LoginOutput) -> (msg: AppMsg)
        ensures
            msg@ == AppMsgView::LoggedIn(output->LoggedIn_0@),
    {
        match output {
            LoginOutput::LoggedIn(session) => AppMsg::LoggedIn(session),
        }
    }

    /// The message for what the main page tells.
    pub fn from_main(output: MainOutput) -> (msg: AppMsg)
        ensures
            msg@ == AppMsgView::Logout,
    {
        match output {
            MainOutput::Logout => AppMsg::Logout,
        }
    }
}

/// What is to be done outside the root after a message.
#[derive(Debug, PartialEq, Eq)]
pub enum AppEffect {
    /// Open a main page for the session, which the page then owns.
    OpenMain(Session),
    /// Drop the main page, and with it the session, its password and its
    /// tokens.
    CloseMain,
}

pub ghost enum AppEffectView {
    OpenMain(SessionView),
    CloseMain,
}

impl View for AppEffect {
    type V = AppEffectView;

    open spec fn view(&self) -> AppEffectView {
        match self {
            AppEffect::OpenMain(session) => AppEffectView::OpenMain(session@),
            AppEffect::CloseMain => AppEffectView::CloseMain,
        }
    }
}

impl DeepView for AppEffect {
    type V = AppEffectView;

    open spec fn deep_view(&self) -> AppEffectView {
        self@
    }
}

/// The state of the root. The login page lives as long as the client and is
/// only hidden; the main page lives from login to logout.
#[derive(Debug, Clone, Copy, PartialEq, Eq, Structural)]
pub struct App {
    pub view: AppView,
    pub login_visible: bool,
    pub main_open: bool,
}

impl App {
    /// Exactly one page is shown: the login page, and then no main page is
    /// open, or the main page.
    pub open spec fn one_page(self) -> bool {
        &&& self.login_visible <==> self.view == AppView::Login
        &&& self.main_open <==> self.view == AppView::Main
    }

    /// The root as the client starts: on the login page.
    pub open spec fn opening() -> App {
        App { view: AppView::Login, login_visible: true, main_open: false }
    }

    /// The root after a message. A login hides the login page and shows the
    /// main page; a logout does the reverse.
    pub open spec fn after(self, msg: AppMsgView) -> App {
        match msg {
            AppMsgView::LoggedIn(_) => App {
                view: AppView::Main,
                login_visible: false,
                main_open: true,
            },
            AppMsgView::Logout => App {
                view: AppView::Login,
                login_visible: true,
                main_open: false,
            },
        }
    }

    /// What is to be done outside after a message: a login opens a main page
    /// for the session that was handed over, a logout drops the main page.
    pub open spec fn effects(self, msg: AppMsgView) -> Seq<AppEffectView> {
        match msg {
            AppMsgView::LoggedIn(session) => seq![AppEffectView::OpenMain(session)],
            AppMsgView::Logout => seq![AppEffectView::CloseMain],
        }
    }

    /// The root as the client starts.
    pub fn init() -> (app: Self)
        ensures
            app == App::opening(),
    {
        App { view: AppView::Login, login_visible: true, main_open: false }
    }

    /// Takes a message from a page, and says what is to be done outside.
    pub fn update(&mut self, msg: AppMsg) -> (effects: Vec<AppEffect>)
        ensures
            *final(self) == old(self).after(msg@),
            effects.deep_view() == old(self).effects(msg@),
    {
        let mut effects: Vec<AppEffect> = Vec::new();
        match msg {
            AppMsg::LoggedIn(session) => {
                self.view = AppView::Main;
                self.login_visible = false;
                self.main_open = true;
                effects.push(AppEffect::OpenMain(session));
                proof {
                    assert(effects.deep_view() =~= seq![AppEffectView::OpenMain(session@)]);
                }
            },
            AppMsg::Logout => {
                self.view = AppView::Login;
                self.main_open = false;
                self.login_visible = true;
                effects.push(AppEffect::CloseMain);
                proof {
                    assert(effects.deep_view() =~= seq![AppEffectView::CloseMain]);
                }
            },
        }
        effects
    }
}

/// Exactly one page is shown when the client starts and after every message,
/// whatever the state before. A session is handed to the main page as it
/// came from the login page, and every logout drops the main page: no session
/// outlives its logout.
pub proof fn lemma_session_lifetime(app: App, msg: AppMsgView, session: SessionView)
    ensures
        App::opening().one_page(),
        app.after(msg).one_page(),
        app.effects(AppMsgView::LoggedIn(session)) == seq![AppEffectView::OpenMain(session)],
        app.effects(AppMsgView::Logout) == seq![AppEffectView::CloseMain],
        !app.after(AppMsgView::Logout).main_open,
        app.after(AppMsgView::LoggedIn(session)).after(AppMsgView::Logout) == app.after(
            AppMsgView::Logout,
        ),
{
}

} // verus!
