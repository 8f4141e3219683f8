//! The client's side of the cluster's HTTP interface, without the transport.
//!
//! An operation never sends anything itself. It is a function of its
//! arguments and of the replies received so far, and it answers with the next
//! request to send or with the operation's result. The caller sends each
//! request, appends the reply, and asks again.

pub mod auth;
pub mod error;
pub mod http;
pub mod spice;
pub mod tasks;
pub mod vms;

pub use auth::{authenticate, get_cluster_name};
pub use error::ApiError;
pub use http::{Reply, Request, Response, Step};
pub use spice::{get_spice_config, launch_spice_viewer};
pub use tasks::get_task_status;
pub use vms::{list_vms, resume_vm, start_vm, stop_vm, suspend_vm};
