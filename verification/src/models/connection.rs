//! Server profiles, session tokens and the session that joins them.

use crate::text::{decimal, decimal_string, push_decimal};
use vstd::prelude::*;

verus! {

/// A saved server: who to connect to, and as whom. It never holds a password.
#[derive(Debug, PartialEq, Eq)]
pub struct ServerConfig {
    pub id: String,
    pub name: String,
    pub host: String,
    pub port: u16,
    pub username: String,
}

/// A server profile as plain values.
pub ghost struct ServerView {
    pub id: Seq<char>,
    pub name: Seq<char>,
    pub host: Seq<char>,
    pub port: u16,
    pub username: Seq<char>,
}

impl ServerView {
    /// The line that presents the server: `name (username@host:port)`.
    pub open spec fn display_name(self) -> Seq<char> {
        self.name + " ("@ + self.username + "@"@ + self.host + ":"@ + decimal(self.port as nat)
            + ")"@
    }
}

impl View for ServerConfig {
    type V = ServerView;

    open spec fn view(&self) -> ServerView {
        ServerView {
            id: self.id@,
            name: self.name@,
            host: self.host@,
            port: self.port,
            username: self.username@,
        }
    }
}

impl DeepView for ServerConfig {
    type V = ServerView;

    open spec fn deep_view(&self) -> ServerView {
        self@
    }
}

impl Clone for ServerConfig {
    fn clone(&self) -> (copy: Self)
        ensures
            copy == *self,
    {
        ServerConfig {
            id: self.id.clone(),
            name: self.name.clone(),
            host: self.host.clone(),
            port: self.port,
            username: self.username.clone(),
        }
    }
}

impl ServerConfig {
    /// A profile with the given fields.
    pub fn new(id: String, name: String, host: String, port: u16, username: String) -> (server:
        Self)
        ensures
            server.id == id,
            server.name == name,
            server.host == host,
            server.port == port,
            server.username == username,
    {
        ServerConfig { id, name, host, port, username }
    }

    /// The line that presents the server: `name (username@host:port)`.
    pub fn display_name(&self) -> (line: String)
        ensures
            line@ == self@.display_name(),
    {
        let mut line = self.name.clone();
        line.append(" (");
        line.append(self.username.as_str());
        line.append("@");
        line.append(self.host.as_str());
        line.append(":");
        push_decimal(&mut line, self.port as u64);
        line.append(")");
        line
    }
}

/// The session ticket and the token that guards changing requests.
#[derive(Debug, PartialEq, Eq)]
pub struct AuthTokens {
    pub ticket: String,
    pub csrf_token: String,
}

/// Session tokens as plain values.
pub ghost struct TokensView {
    pub ticket: Seq<char>,
    pub csrf_token: Seq<char>,
}

impl View for AuthTokens {
    type V = TokensView;

    open spec fn view(&self) -> TokensView {
        TokensView { ticket: self.ticket@, csrf_token: self.csrf_token@ }
    }
}

impl DeepView for AuthTokens {
    type V = TokensView;

    open spec fn deep_view(&self) -> TokensView {
        self@
    }
}

impl Clone for AuthTokens {
    fn clone(&self) -> (copy: Self)
        ensures
            copy == *self,
    {
        AuthTokens { ticket: self.ticket.clone(), csrf_token: self.csrf_token.clone() }
    }
}

/// A server profile together with what a successful login produced. The
/// password lives here, in memory, and nowhere else.
#[derive(Debug, PartialEq, Eq)]
pub struct Session {
    pub server: ServerConfig,
    pub password: String,
    pub tokens: AuthTokens,
    pub cluster_name: Option<String>,
}

/// A session as plain values.
pub ghost struct SessionView {
    pub server: ServerView,
    pub password: Seq<char>,
    pub tokens: TokensView,
    pub cluster_name: Option<Seq<char>>,
}

impl SessionView {
    /// The name shown for the connection: the cluster's name where one was
    /// resolved, else the profile's name.
    pub open spec fn display_name(self) -> Seq<char> {
        match self.cluster_name {
            Some(name) => name,
            None => self.server.name,
        }
    }
}

impl View for Session {
    type V = SessionView;

    open spec fn view(&self) -> SessionView {
        SessionView {
            server: self.server@,
            password: self.password@,
            tokens: self.tokens@,
            cluster_name: match self.cluster_name {
                Some(name) => Some(name@),
                None => None,
            },
        }
    }
}

impl DeepView for Session {
    type V = SessionView;

    open spec fn deep_view(&self) -> SessionView {
        self@
    }
}

impl Clone for Session {
    fn clone(&self) -> (copy: Self)
        ensures
            copy == *self,
    {
        Session {
            server: self.server.clone(),
            password: self.password.clone(),
            tokens: self.tokens.clone(),
            cluster_name: match &self.cluster_name {
                Some(name) => Some(name.clone()),
                None => None,
            },
        }
    }
}

impl Session {
    /// A session for `server`, opened with `password`.
    pub fn new(
        server: ServerConfig,
        password: String,
        tokens: AuthTokens,
        cluster_name: Option<String>,
    ) -> (session: Self)
        ensures
            session.server == server,
            session.password == password,
            session.tokens == tokens,
            session.cluster_name == cluster_name,
    {
        Session { server, password, tokens, cluster_name }
    }

    /// The host that requests go to.
    pub fn host(&self) -> (host: &str)
        ensures
            host@ == self@.server.host,
    {
        self.server.host.as_str()
    }

    /// The port that requests go to.
    pub fn port(&self) -> (port: u16)
        ensures
            port == self@.server.port,
    {
        self.server.port
    }

    /// The user that the session belongs to.
    pub fn username(&self) -> (username: &str)
        ensures
            username@ == self@.server.username,
    {
        self.server.username.as_str()
    }

    /// The name shown for the connection: the cluster's name where one was
    /// resolved, else the profile's name.
    pub fn display_name(&self) -> (name: String)
        ensures
            name@ == self@.display_name(),
    {
        match &self.cluster_name {
            Some(name) => name.clone(),
            None => self.server.name.clone(),
        }
    }
}

/// Everything one request about one machine needs, in one record.
#[derive(Debug, PartialEq, Eq)]
pub struct ProxmoxConnection {
    pub name: String,
    pub host: String,
    pub port: u16,
    pub username: String,
    pub password: String,
    pub node: String,
    pub vmid: String,
}

/// A connection record as plain values.
pub ghost struct ConnectionView {
    pub name: Seq<char>,
    pub host: Seq<char>,
    pub port: u16,
    pub username: Seq<char>,
    pub password: Seq<char>,
    pub node: Seq<char>,
    pub vmid: Seq<char>,
}

impl View for ProxmoxConnection {
    type V = ConnectionView;

    open spec fn view(&self) -> ConnectionView {
        ConnectionView {
            name: self.name@,
            host: self.host@,
            port: self.port,
            username: self.username@,
            password: self.password@,
            node: self.node@,
            vmid: self.vmid@,
        }
    }
}

impl Clone for ProxmoxConnection {
    fn clone(&self) -> (copy: Self)
        ensures
            copy == *self,
    {
        ProxmoxConnection {
            name: self.name.clone(),
            host: self.host.clone(),
            port: self.port,
            username: self.username.clone(),
            password: self.password.clone(),
            node: self.node.clone(),
            vmid: self.vmid.clone(),
        }
    }
}

impl ProxmoxConnection {
    /// The connection record for machine `vmid` on `node`, within `session`.
    /// The machine's number is kept as its decimal numeral.
    pub fn from_session(session: &Session, node: &str, vmid: u32) -> (connection: Self)
        ensures
            connection@ == (ConnectionView {
                name: session@.server.name,
                host: session@.server.host,
                port: session@.server.port,
                username: session@.server.username,
                password: session@.password,
                node: node@,
                vmid: decimal(vmid as nat),
            }),
    {
        ProxmoxConnection {
            name: session.server.name.clone(),
            host: session.server.host.clone(),
            port: session.server.port,
            username: session.server.username.clone(),
            password: session.password.clone(),
            node: String::from_str(node),
            vmid: decimal_string(vmid as u64),
        }
    }
}

} // verus!
