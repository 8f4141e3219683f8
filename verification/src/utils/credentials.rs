//! The layout of one saved server in a credential store: the connection data
//! under one key, the password under a key of its own.

use vstd::prelude::*;

verus! {

/// The part of a saved server that is no secret.
#[derive(Debug, PartialEq, Eq)]
pub struct ServerConfig {
    pub host: String,
    pub port: u16,
    pub username: String,
}

/// A saved server with its password, as the caller hands it over and gets it
/// back.
#[derive(Debug, PartialEq, Eq)]
pub struct ServerConfigWithPassword {
    pub host: String,
    pub port: u16,
    pub username: String,
    pub password: String,
}

pub ghost struct PublicView {
    pub host: Seq<char>,
    pub port: u16,
    pub username: Seq<char>,
}

pub ghost struct SecretView {
    pub host: Seq<char>,
    pub port: u16,
    pub username: Seq<char>,
    pub password: Seq<char>,
}

impl SecretView {
    /// The connection data without the password.
    pub open spec fn public_part(self) -> PublicView {
        PublicView { host: self.host, port: self.port, username: self.username }
    }

    /// The connection data joined with a password.
    pub open spec fn from_parts(public: PublicView, password: Seq<char>) -> SecretView {
        SecretView {
            host: public.host,
            port: public.port,
            username: public.username,
            password,
        }
    }
}

impl View for ServerConfig {
    type V = PublicView;

    open spec fn view(&self) -> PublicView {
        PublicView { host: self.host@, port: self.port, username: self.username@ }
    }
}

impl View for ServerConfigWithPassword {
    type V = SecretView;

    open spec fn view(&self) -> SecretView {
        SecretView {
            host: self.host@,
            port: self.port,
            username: self.username@,
            password: self.password@,
        }
    }
}

/// The name of the store that the entries are kept under.
pub fn service_name() -> (name: &'static str)
    ensures
        name@ == "com.proxmox.vmlauncher"@,
{
    "com.proxmox.vmlauncher"
}

/// The key of the entry that holds the connection data.
pub fn config_key() -> (key: &'static str)
    ensures
        key@ == "server_config"@,
{
    "server_config"
}

/// The key of the entry that holds the password for `host`.
pub open spec fn password_key_of(host: Seq<char>) -> Seq<char> {
    host + "_password"@
}

/// The key of the entry that holds the password for `host`.
pub fn password_key(host: &str) -> (key: String)
    ensures
        key@ == password_key_of(host@),
{
    let mut key = String::from_str(host);
    key.append("_password");
    key
}

impl ServerConfigWithPassword {
    /// The connection data without the password: what is written under the
    /// configuration's key.
    pub fn public_part(&self) -> (public: ServerConfig)
        ensures
            public@ == self@.public_part(),
    {
        ServerConfig {
            host: self.host.clone(),
            port: self.port,
            username: self.username.clone(),
        }
    }

    /// Joins the connection data with the password that was kept apart.
    pub fn from_parts(public: ServerConfig, password: String) -> (whole: Self)
        ensures
            whole@ == SecretView::from_parts(public@, password@),
    {
        ServerConfigWithPassword {
            host: public.host,
            port: public.port,
            username: public.username,
            password,
        }
    }
}

/// Taking a saved server apart and joining the parts again gives the same
/// server; the part that is written under the configuration's key holds the
/// host, the port and the user, and the password is in neither that part nor
/// the key that the password is kept under.
pub proof fn lemma_parts_join(whole: SecretView, other_password: Seq<char>)
    ensures
        SecretView::from_parts(whole.public_part(), whole.password) == whole,
        (SecretView { password: other_password, ..whole }).public_part() == whole.public_part(),
        password_key_of((SecretView { password: other_password, ..whole }).host)
            == password_key_of(whole.host),
{
}

} // verus!
