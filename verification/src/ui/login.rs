//! The page on which a server is chosen, added or deleted, and logged in to.

use crate::api::error::ApiError;
use crate::models::connection::{
    AuthTokens, ServerConfig, ServerView, Session, SessionView, TokensView,
};
use crate::text::{decimal, parse_port, port_number, push_decimal};
use crate::utils::config::{find_server, position_of, StoredConfig, StoredView};
use vstd::prelude::*;

verus! {

/// What the page shows.
#[derive(Debug, Clone, Copy, PartialEq, Eq, Structural)]
pub enum LoginMode {
    /// No server is saved.
    Empty,
    /// The form for a new server.
    AddServer,
    /// The saved servers and the password field.
    Login,
}

/// The messages that the page takes: from its widgets, and from whoever
/// carried out what the page asked for.
#[derive(Debug, PartialEq, Eq)]
pub enum LoginMsg {
    SelectServer(u32),
    SetNewName(String),
    SetNewHost(String),
    SetNewPort(String),
    SetNewUsername(String),
    SetPassword(String),
    ShowAddServer,
    SaveServer,
    /// The server that `SaveServer` asked to store is stored.
    ServerSaved(ServerConfig),
    /// The server that `SaveServer` asked to store could not be stored.
    SaveFailed(String),
    CancelAddServer,
    DeleteServer,
    Login,
    LoginSuccess(AuthTokens, Option<String>),
    LoginError(String),
}

pub ghost enum LoginMsgView {
    SelectServer(u32),
    SetNewName(Seq<char>),
    SetNewHost(Seq<char>),
    SetNewPort(Seq<char>),
    SetNewUsername(Seq<char>),
    SetPassword(Seq<char>),
    ShowAddServer,
    SaveServer,
    ServerSaved(ServerView),
    SaveFailed(Seq<char>),
    CancelAddServer,
    DeleteServer,
    Login,
    LoginSuccess(TokensView, Option<Seq<char>>),
    LoginError(Seq<char>),
}

impl View for LoginMsg {
    type V = LoginMsgView;

    open spec fn view(&self) -> LoginMsgView {
        match self {
            LoginMsg::SelectServer(idx) => LoginMsgView::SelectServer(*idx),
            LoginMsg::SetNewName(name) => LoginMsgView::SetNewName(name@),
            LoginMsg::SetNewHost(host) => LoginMsgView::SetNewHost(host@),
            LoginMsg::SetNewPort(port) => LoginMsgView::SetNewPort(port@),
            LoginMsg::SetNewUsername(username) => LoginMsgView::SetNewUsername(username@),
            LoginMsg::SetPassword(password) => LoginMsgView::SetPassword(password@),
            LoginMsg::ShowAddServer => LoginMsgView::ShowAddServer,
            LoginMsg::SaveServer => LoginMsgView::SaveServer,
            LoginMsg::ServerSaved(server) => LoginMsgView::ServerSaved(server@),
            LoginMsg::SaveFailed(error) => LoginMsgView::SaveFailed(error@),
            LoginMsg::CancelAddServer => LoginMsgView::CancelAddServer,
            LoginMsg::DeleteServer => LoginMsgView::DeleteServer,
            LoginMsg::Login => LoginMsgView::Login,
            LoginMsg::LoginSuccess(tokens, cluster_name) => LoginMsgView::LoginSuccess(
                tokens@,
                cluster_name.deep_view(),
            ),
            LoginMsg::LoginError(error) => LoginMsgView::LoginError(error@),
        }
    }
}

impl LoginMsg {
    /// The message for a login that failed: the failure's line.
    pub fn login_failed(error: &ApiError) -> (msg: LoginMsg)
        ensures
            msg@ == LoginMsgView::LoginError(error@.message()),
    {
        LoginMsg::LoginError(error.message())
    }

    /// The message for a login that gave tokens. The name to show is what the
    /// search for it gave; a search that failed gives none, and does not
    /// fail the login.
    pub fn login_succeeded(tokens: AuthTokens, cluster_name: Result<String, ApiError>) -> (msg:
        LoginMsg)
        ensures
            msg@ == LoginMsgView::LoginSuccess(
                tokens@,
                match cluster_name {
                    Ok(name) => Some(name@),
                    Err(_) => None,
                },
            ),
    {
        match cluster_name {
            Ok(name) => LoginMsg::LoginSuccess(tokens, Some(name)),
            Err(_) => LoginMsg::LoginSuccess(tokens, None),
        }
    }

    /// The message for what came of storing a server.
    pub fn stored(server: ServerConfig, outcome: Result<(), String>) -> (msg: LoginMsg)
        ensures
            msg@ == (match outcome {
                Ok(_) => LoginMsgView::ServerSaved(server@),
                Err(error) => LoginMsgView::SaveFailed(error@),
            }),
    {
        match outcome {
            Ok(_) => LoginMsg::ServerSaved(server),
            Err(error) => LoginMsg::SaveFailed(error),
        }
    }
}

/// What the page tells its parent.
#[derive(Debug, PartialEq, Eq)]
pub enum LoginOutput {
    LoggedIn(Session),
}

/// What is to be done outside the page after a message.
#[derive(Debug, PartialEq, Eq)]
pub enum LoginEffect {
    /// Add the server to what is saved, and answer with `ServerSaved` or
    /// `SaveFailed`.
    StoreServer(ServerConfig),
    /// Delete the server with this identifier from what is saved.
    ForgetServer(String),
    /// Log in, note the server as the last used one, find the name to show,
    /// and answer with `LoginSuccess` or `LoginError`.
    Authenticate { server: ServerConfig, password: String },
    /// Hand the session to the page's parent.
    Output(LoginOutput),
}

pub ghost enum LoginEffectView {
    StoreServer(ServerView),
    ForgetServer(Seq<char>),
    Authenticate { server: ServerView, password: Seq<char> },
    LoggedIn(SessionView),
}

impl View for LoginEffect {
    type V = LoginEffectView;

    open spec fn view(&self) -> LoginEffectView {
        match self {
            LoginEffect::StoreServer(server) => LoginEffectView::StoreServer(server@),
            LoginEffect::ForgetServer(id) => LoginEffectView::ForgetServer(id@),
            LoginEffect::Authenticate { server, password } => LoginEffectView::Authenticate {
                server: server@,
                password: password@,
            },
            LoginEffect::Output(LoginOutput::LoggedIn(session)) => LoginEffectView::LoggedIn(
                session@,
            ),
        }
    }
}

impl DeepView for LoginEffect {
    type V = LoginEffectView;

    open spec fn deep_view(&self) -> LoginEffectView {
        self@
    }
}

/// The state of the page.
#[derive(Debug, PartialEq, Eq)]
pub struct LoginPage {
    pub mode: LoginMode,
    pub servers: Vec<ServerConfig>,
    pub selected_server_idx: Option<usize>,
    pub new_name: String,
    pub new_host: String,
    pub new_port: String,
    pub new_username: String,
    pub password: String,
    pub is_loading: bool,
    pub error: Option<String>,
    /// The list of servers is to be drawn anew.
    pub servers_changed: bool,
}

pub ghost struct LoginPageView {
    pub mode: LoginMode,
    pub servers: Seq<ServerView>,
    pub selected_server_idx: Option<usize>,
    pub new_name: Seq<char>,
    pub new_host: Seq<char>,
    pub new_port: Seq<char>,
    pub new_username: Seq<char>,
    pub password: Seq<char>,
    pub is_loading: bool,
    pub error: Option<Seq<char>>,
    pub servers_changed: bool,
}

impl View for LoginPage {
    type V = LoginPageView;

    open spec fn view(&self) -> LoginPageView {
        LoginPageView {
            mode: self.mode,
            servers: self.servers.deep_view(),
            selected_server_idx: self.selected_server_idx,
            new_name: self.new_name@,
            new_host: self.new_host@,
            new_port: self.new_port@,
            new_username: self.new_username@,
            password: self.password@,
            is_loading: self.is_loading,
            error: self.error.deep_view(),
            servers_changed: self.servers_changed,
        }
    }
}

impl DeepView for LoginPage {
    type V = LoginPageView;

    open spec fn deep_view(&self) -> LoginPageView {
        self@
    }
}

/// The port that the form proposes, and that stands for a port field that
/// holds no port number.
pub open spec fn default_port() -> u16 {
    8006
}

impl LoginPageView {
    /// The page as it opens on what is saved. With servers saved it shows
    /// them, and the one that was used last is selected, or the first one
    /// where none was or the one is gone; without, it shows the empty page.
    pub open spec fn opening(config: StoredView) -> LoginPageView {
        LoginPageView {
            mode: if config.servers.len() == 0 {
                LoginMode::Empty
            } else {
                LoginMode::Login
            },
            servers: config.servers,
            selected_server_idx: if config.servers.len() == 0 {
                None
            } else {
                match config.last_used_server_id {
                    Some(id) => match position_of(config.servers, id) {
                        Some(i) => Some(i as usize),
                        None => Some(0),
                    },
                    None => Some(0),
                }
            },
            new_name: Seq::empty(),
            new_host: Seq::empty(),
            new_port: "8006"@,
            new_username: "root@pam"@,
            password: Seq::empty(),
            is_loading: false,
            error: None,
            servers_changed: true,
        }
    }

    /// The form can be saved: it names a host and a user.
    pub open spec fn can_save_server(self) -> bool {
        self.new_host.len() > 0 && self.new_username.len() > 0
    }

    /// A server is selected and a password is entered.
    pub open spec fn can_login(self) -> bool {
        self.selected_server_idx is Some && self.password.len() > 0
    }

    /// The selected server, where the selection names a saved one.
    pub open spec fn selected(self) -> Option<ServerView> {
        match self.selected_server_idx {
            Some(idx) => if idx < self.servers.len() {
                Some(self.servers[idx as int])
            } else {
                None
            },
            None => None,
        }
    }

    /// The server that the form describes, under the identifier `id`. A form
    /// without a name takes the host as the name; a port field that holds no
    /// port number stands for the default port.
    pub open spec fn draft_server(self, id: Seq<char>) -> ServerView {
        ServerView {
            id,
            name: if self.new_name.len() == 0 {
                self.new_host
            } else {
                self.new_name
            },
            host: self.new_host,
            port: match port_number(self.new_port) {
                Some(port) => port,
                None => default_port(),
            },
            username: self.new_username,
        }
    }

    /// The line under the page's title.
    pub open spec fn mode_title(self) -> Seq<char> {
        match self.mode {
            LoginMode::Empty => "No servers configured"@,
            LoginMode::AddServer => "Add a new server"@,
            LoginMode::Login => "Connect to server"@,
        }
    }

    /// The way back from the form is offered where there is a list to go
    /// back to.
    pub open spec fn shows_back(self) -> bool {
        self.mode == LoginMode::AddServer && self.servers.len() > 0
    }

    /// Deleting is offered for a selected server of the list.
    pub open spec fn shows_delete(self) -> bool {
        self.mode == LoginMode::Login && self.selected_server_idx is Some
    }

    /// The connect button can be pressed: no login is under way, and one can
    /// be tried.
    pub open spec fn connect_enabled(self) -> bool {
        !self.is_loading && self.can_login()
    }

    /// The list of servers is to be drawn anew before the page is shown.
    pub open spec fn needs_refresh(self) -> bool {
        self.servers_changed && self.mode == LoginMode::Login
    }

    /// The page after a server was deleted from the list: the first of the
    /// servers that are left is selected, and the empty page is shown where
    /// none is left.
    pub open spec fn without_selected(self) -> LoginPageView {
        match self.selected_server_idx {
            Some(idx) => if idx < self.servers.len() {
                let left = self.servers.remove(idx as int);
                if left.len() == 0 {
                    LoginPageView {
                        servers: left,
                        mode: LoginMode::Empty,
                        selected_server_idx: None,
                        ..self
                    }
                } else {
                    LoginPageView {
                        servers: left,
                        selected_server_idx: Some(0),
                        servers_changed: true,
                        ..self
                    }
                }
            } else {
                self
            },
            None => self,
        }
    }

    /// The page after a message.
    pub open spec fn after(self, msg: LoginMsgView) -> LoginPageView {
        match msg {
            LoginMsgView::SelectServer(idx) => LoginPageView {
                selected_server_idx: Some(idx as usize),
                error: None,
                ..self
            },
            LoginMsgView::SetNewName(name) => LoginPageView { new_name: name, ..self },
            LoginMsgView::SetNewHost(host) => LoginPageView { new_host: host, ..self },
            LoginMsgView::SetNewPort(port) => LoginPageView { new_port: port, ..self },
            LoginMsgView::SetNewUsername(username) => LoginPageView {
                new_username: username,
                ..self
            },
            LoginMsgView::SetPassword(password) => LoginPageView { password, error: None, ..self },
            LoginMsgView::ShowAddServer => LoginPageView {
                mode: LoginMode::AddServer,
                new_name: Seq::empty(),
                new_host: Seq::empty(),
                new_port: "8006"@,
                new_username: "root@pam"@,
                error: None,
                ..self
            },
            LoginMsgView::SaveServer => self,
            LoginMsgView::ServerSaved(server) => LoginPageView {
                servers: self.servers.push(server),
                selected_server_idx: Some(self.servers.len() as usize),
                mode: LoginMode::Login,
                password: Seq::empty(),
                servers_changed: true,
                ..self
            },
            LoginMsgView::SaveFailed(error) => LoginPageView { error: Some(error), ..self },
            LoginMsgView::CancelAddServer => if self.servers.len() == 0 {
                LoginPageView { mode: LoginMode::Empty, error: None, ..self }
            } else {
                LoginPageView {
                    mode: LoginMode::Login,
                    servers_changed: true,
                    error: None,
                    ..self
                }
            },
            LoginMsgView::DeleteServer => self.without_selected(),
            LoginMsgView::Login => if self.can_login() && self.selected() is Some {
                LoginPageView { is_loading: true, error: None, ..self }
            } else {
                self
            },
            LoginMsgView::LoginSuccess(_, _) => LoginPageView { is_loading: false, ..self },
            LoginMsgView::LoginError(error) => LoginPageView {
                is_loading: false,
                error: Some(error),
                ..self
            },
        }
    }

    /// What is to be done outside after a message, where `id` is the fresh
    /// identifier for a server that is saved. Saving asks for nothing unless
    /// the form can be saved, and logging in asks for nothing unless a saved
    /// server is selected and a password is entered.
    pub open spec fn effects(self, msg: LoginMsgView, id: Seq<char>) -> Seq<LoginEffectView> {
        match msg {
            LoginMsgView::SaveServer => if self.can_save_server() {
                seq![LoginEffectView::StoreServer(self.draft_server(id))]
            } else {
                Seq::empty()
            },
            LoginMsgView::DeleteServer => match self.selected() {
                Some(server) => seq![LoginEffectView::ForgetServer(server.id)],
                None => Seq::empty(),
            },
            LoginMsgView::Login => match self.selected() {
                Some(server) => if self.can_login() {
                    seq![LoginEffectView::Authenticate { server, password: self.password }]
                } else {
                    Seq::empty()
                },
                None => Seq::empty(),
            },
            LoginMsgView::LoginSuccess(tokens, cluster_name) => match self.selected() {
                Some(server) => seq![
                    LoginEffectView::LoggedIn(
                        SessionView { server, password: self.password, tokens, cluster_name },
                    ),
                ],
                None => Seq::empty(),
            },
            _ => Seq::empty(),
        }
    }
}

/// The line under a server's name in the list: `username@host:port`.
pub open spec fn server_subtitle(server: ServerView) -> Seq<char> {
    server.username + "@"@ + server.host + ":"@ + decimal(server.port as nat)
}

/// The line under a server's name in the list.
pub fn build_server_subtitle(server: &ServerConfig) -> (line: String)
    ensures
        line@ == server_subtitle(server@),
{
    let mut line = server.username.clone();
    line.append("@");
    line.append(server.host.as_str());
    line.append(":");
    push_decimal(&mut line, server.port as u64);
    line
}

/// `Uuid::new_v4` of the `uuid` crate, then the identifier's `to_string`: a
/// random identifier in its hyphenated form, which has 36 characters. Nothing
/// else is said of it: each call gives another one.
#[verifier::external_body]
fn fresh_server_id() -> (id: String)
    ensures
        id@.len() == 36,
{
    uuid::Uuid::new_v4().to_string()
}

impl LoginPage {
    /// The page as it opens on what is saved.
    pub fn init(config: StoredConfig) -> (page: Self)
        ensures
            page@ == LoginPageView::opening(config@),
    {
        let selected_server_idx = if config.servers.len() == 0 {
            None
        } else {
            match &config.last_used_server_id {
                Some(id) => match find_server(&config.servers, id.as_str()) {
                    Some(i) => Some(i),
                    None => Some(0),
                },
                None => Some(0),
            }
        };
        let mode = if config.servers.len() == 0 {
            LoginMode::Empty
        } else {
            LoginMode::Login
        };
        LoginPage {
            mode,
            servers: config.servers,
            selected_server_idx,
            new_name: String::new(),
            new_host: String::new(),
            new_port: String::from_str("8006"),
            new_username: String::from_str("root@pam"),
            password: String::new(),
            is_loading: false,
            error: None,
            servers_changed: true,
        }
    }

    /// Whether the form can be saved.
    pub fn can_save_server(&self) -> (yes: bool)
        ensures
            yes == self@.can_save_server(),
    {
        !self.new_host.as_str().is_empty() && !self.new_username.as_str().is_empty()
    }

    /// Whether a login can be tried.
    pub fn can_login(&self) -> (yes: bool)
        ensures
            yes == self@.can_login(),
    {
        self.selected_server_idx.is_some() && !self.password.as_str().is_empty()
    }

    /// The line under the page's title.
    pub fn mode_title(&self) -> (title: &'static str)
        ensures
            title@ == self@.mode_title(),
    {
        match self.mode {
            LoginMode::Empty => "No servers configured",
            LoginMode::AddServer => "Add a new server",
            LoginMode::Login => "Connect to server",
        }
    }

    /// Whether the way back from the form is offered.
    pub fn shows_back(&self) -> (yes: bool)
        ensures
            yes == self@.shows_back(),
    {
        self.mode == LoginMode::AddServer && self.servers.len() > 0
    }

    /// Whether deleting is offered.
    pub fn shows_delete(&self) -> (yes: bool)
        ensures
            yes == self@.shows_delete(),
    {
        self.mode == LoginMode::Login && self.selected_server_idx.is_some()
    }

    /// Whether the connect button can be pressed.
    pub fn connect_enabled(&self) -> (yes: bool)
        ensures
            yes == self@.connect_enabled(),
    {
        !self.is_loading && self.can_login()
    }

    /// The connect button's label.
    pub fn connect_label(&self) -> (label: &'static str)
        ensures
            label@ == (if self@.is_loading {
                "Connecting..."@
            } else {
                "Connect"@
            }),
    {
        if self.is_loading {
            "Connecting..."
        } else {
            "Connect"
        }
    }

    /// Whether the list of servers is to be drawn anew.
    pub fn needs_refresh(&self) -> (yes: bool)
        ensures
            yes == self@.needs_refresh(),
    {
        self.servers_changed && self.mode == LoginMode::Login
    }

    /// Whether row `idx` of the list carries the mark of the selected server.
    pub fn is_selected(&self, idx: usize) -> (yes: bool)
        ensures
            yes == (self@.selected_server_idx == Some(idx)),
    {
        match self.selected_server_idx {
            Some(selected) => selected == idx,
            None => false,
        }
    }

    /// The selected server, where the selection names a saved one.
    pub fn selected(&self) -> (server: Option<&ServerConfig>)
        ensures
            server.deep_view() == self@.selected(),
    {
        match self.selected_server_idx {
            Some(idx) => {
                if idx < self.servers.len() {
                    Some(&self.servers[idx])
                } else {
                    None
                }
            },
            None => None,
        }
    }

    /// The server that the form describes, under the identifier `id`.
    pub fn draft_server(&self, id: String) -> (server: ServerConfig)
        ensures
            server@ == self@.draft_server(id@),
    {
        let name = if self.new_name.as_str().is_empty() {
            self.new_host.clone()
        } else {
            self.new_name.clone()
        };
        let port = match parse_port(self.new_port.as_str()) {
            Some(port) => port,
            None => 8006,
        };
        ServerConfig::new(id, name, self.new_host.clone(), port, self.new_username.clone())
    }

    /// What saving the form asks for, with `id` as the new server's
    /// identifier. The page itself changes only when the answer comes.
    pub fn save_server(&self, id: String) -> (effects: Vec<LoginEffect>)
        ensures
            effects.deep_view() == self@.effects(LoginMsgView::SaveServer, id@),
    {
        let mut effects: Vec<LoginEffect> = Vec::new();
        if self.can_save_server() {
            effects.push(LoginEffect::StoreServer(self.draft_server(id)));
            proof {
                assert(effects.deep_view() =~= seq![
                    LoginEffectView::StoreServer(self@.draft_server(id@)),
                ]);
            }
        } else {
            proof {
                assert(effects.deep_view() =~= Seq::empty());
            }
        }
        effects
    }

    fn delete_selected(&mut self) -> (effects: Vec<LoginEffect>)
        ensures
            final(self)@ == old(self)@.without_selected(),
            effects.deep_view() == old(self)@.effects(LoginMsgView::DeleteServer, Seq::empty()),
    {
        let mut effects: Vec<LoginEffect> = Vec::new();
        proof {
            assert(effects.deep_view() =~= Seq::empty());
        }
        match self.selected_server_idx {
            Some(idx) => {
                if idx < self.servers.len() {
                    let ghost before = self.servers.deep_view();
                    let gone = self.servers.remove(idx);
                    proof {
                        assert(self.servers.deep_view() =~= before.remove(idx as int));
                        assert(gone@ == before[idx as int]);
                    }
                    effects.push(LoginEffect::ForgetServer(gone.id));
                    proof {
                        assert(effects.deep_view() =~= seq![
                            LoginEffectView::ForgetServer(before[idx as int].id),
                        ]);
                    }
                    if self.servers.len() == 0 {
                        self.mode = LoginMode::Empty;
                        self.selected_server_idx = None;
                    } else {
                        self.selected_server_idx = Some(0);
                        self.servers_changed = true;
                    }
                }
            },
            None => {},
        }
        effects
    }

    /// Takes any message but `SaveServer`.
    fn step(&mut self, msg: LoginMsg) -> (effects: Vec<LoginEffect>)
        requires
            !(msg is SaveServer),
        ensures
            final(self)@ == old(self)@.after(msg@),
            effects.deep_view() == old(self)@.effects(msg@, Seq::empty()),
    {
        let mut effects: Vec<LoginEffect> = Vec::new();
        proof {
            assert(effects.deep_view() =~= Seq::empty());
        }
        match msg {
            LoginMsg::SelectServer(idx) => {
                self.selected_server_idx = Some(idx as usize);
                self.error = None;
            },
            LoginMsg::SetNewName(name) => {
                self.new_name = name;
            },
            LoginMsg::SetNewHost(host) => {
                self.new_host = host;
            },
            LoginMsg::SetNewPort(port) => {
                self.new_port = port;
            },
            LoginMsg::SetNewUsername(username) => {
                self.new_username = username;
            },
            LoginMsg::SetPassword(password) => {
                self.password = password;
                self.error = None;
            },
            LoginMsg::ShowAddServer => {
                self.mode = LoginMode::AddServer;
                self.new_name = String::new();
                self.new_host = String::new();
                self.new_port = String::from_str("8006");
                self.new_username = String::from_str("root@pam");
                self.error = None;
            },
            LoginMsg::SaveServer => {},
            LoginMsg::ServerSaved(server) => {
                let ghost before = self.servers.deep_view();
                self.servers.push(server);
                proof {
                    assert(self.servers.deep_view() =~= before.push(server@));
                }
                self.selected_server_idx = Some(self.servers.len() - 1);
                self.mode = LoginMode::Login;
                self.password = String::new();
                self.servers_changed = true;
            },
            LoginMsg::SaveFailed(error) => {
                self.error = Some(error);
            },
            LoginMsg::CancelAddServer => {
                if self.servers.len() == 0 {
                    self.mode = LoginMode::Empty;
                } else {
                    self.mode = LoginMode::Login;
                    self.servers_changed = true;
                }
                self.error = None;
            },
            LoginMsg::DeleteServer => {
                effects = self.delete_selected();
            },
            LoginMsg::Login => {
                if self.can_login() {
                    let chosen = match self.selected() {
                        Some(server) => Some(server.clone()),
                        None => None,
                    };
                    match chosen {
                        Some(server) => {
                            self.is_loading = true;
                            self.error = None;
                            effects.push(
                                LoginEffect::Authenticate {
                                    server,
                                    password: self.password.clone(),
                                },
                            );
                            proof {
                                assert(effects.deep_view() =~= old(self)@.effects(
                                    msg@,
                                    Seq::empty(),
                                ));
                            }
                        },
                        None => {},
                    }
                }
            },
            LoginMsg::LoginSuccess(tokens, cluster_name) => {
                self.is_loading = false;
                let chosen = match self.selected() {
                    Some(server) => Some(server.clone()),
                    None => None,
                };
                match chosen {
                    Some(server) => {
                        let session = Session::new(
                            server,
                            self.password.clone(),
                            tokens,
                            cluster_name,
                        );
                        effects.push(LoginEffect::Output(LoginOutput::LoggedIn(session)));
                        proof {
                            assert(effects.deep_view() =~= old(self)@.effects(msg@, Seq::empty()));
                        }
                    },
                    None => {},
                }
            },
            LoginMsg::LoginError(error) => {
                self.is_loading = false;
                self.error = Some(error);
            },
        }
        effects
    }

    /// Takes a message, changes the page, and says what is to be done outside.
    /// Saving a server draws a fresh identifier for it, which is all that is
    /// not fixed by the page and the message.
    pub fn update(&mut self, msg: LoginMsg) -> (effects: Vec<LoginEffect>)
        ensures
            final(self)@ == old(self)@.after(msg@),
            exists|id: Seq<char>|
                id.len() == 36 && effects.deep_view() == #[trigger] old(self)@.effects(msg@, id),
    {
        match msg {
            LoginMsg::SaveServer => {
                let id = fresh_server_id();
                let effects = self.save_server(id);
                proof {
                    assert(effects.deep_view() == old(self)@.effects(msg@, id@));
                }
                effects
            },
            other => {
                let effects = self.step(other);
                proof {
                    let id = Seq::new(36, |i: int| '0');
                    assert(old(self)@.effects(msg@, id) == old(self)@.effects(msg@, Seq::empty()));
                    assert(effects.deep_view() == old(self)@.effects(msg@, id));
                }
                effects
            },
        }
    }
}

/// A login is asked for only with a saved server selected and a password
/// entered, and then with that server and that password; what is handed to
/// the parent after a successful login is the session of that server, with
/// the password that was entered and the tokens and the name that came back.
pub proof fn lemma_login_uses_selection(
    page: LoginPageView,
    tokens: TokensView,
    cluster_name: Option<Seq<char>>,
    id: Seq<char>,
)
    ensures
        page.effects(LoginMsgView::Login, id).len() > 0 <==> (page.can_login() && page.selected()
            is Some),
        page.effects(LoginMsgView::Login, id).len() > 0 ==> page.effects(LoginMsgView::Login, id)
            == seq![
            LoginEffectView::Authenticate {
                server: page.selected()->0,
                password: page.password,
            },
        ],
        page.selected() is Some ==> page.effects(
            LoginMsgView::LoginSuccess(tokens, cluster_name),
            id,
        ) == seq![
            LoginEffectView::LoggedIn(
                SessionView {
                    server: page.selected()->0,
                    password: page.password,
                    tokens,
                    cluster_name,
                },
            ),
        ],
{
}

} // verus!
