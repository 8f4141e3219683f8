//! The records that the client keeps about servers, sessions, machines and tasks.

pub mod connection;
pub mod task;
pub mod vm;

pub use connection::{AuthTokens, ProxmoxConnection, ServerConfig, Session};
pub use task::TaskStatus;
pub use vm::{VMInfo, VMStatus};
