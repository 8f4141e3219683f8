//! The pages of the client as state machines: each takes a message, changes
//! its state, and says what is to be done outside. Widgets are the caller's.

pub mod app;
pub mod login;
pub mod main_page;
pub mod vm_item;

pub use app::{App, AppMsg};
pub use login::{LoginMsg, LoginOutput, LoginPage};
pub use main_page::{MainMsg, MainOutput, MainPage};
pub use vm_item::{VMItem, VMItemInput, VMItemOutput};
