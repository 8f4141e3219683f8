//! What the client keeps between runs, as values: reading and writing them is
//! the caller's part.

pub mod config;
pub mod credentials;

pub use config::{
    add_server, delete_server, get_last_used_server, set_last_used_server, update_server,
    StoredConfig,
};
