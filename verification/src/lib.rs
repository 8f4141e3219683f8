//! Session handling and virtual-machine lifecycle for a Proxmox VE cluster,
//! written without I/O: every operation is a function from what was received
//! to what should be sent next, or to the operation's result.

pub mod api;
pub mod models;
pub mod text;
pub mod ui;
pub mod utils;
