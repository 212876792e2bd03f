//! Decision logic of a minimal login and display manager.
//!
//! The crate holds everything the manager decides: which display to take,
//! what the authority cookie looks like, in which order a worker gives up
//! its privileges, which failures send the user back to the prompt. The
//! operating system is driven by the caller: each state machine here hands
//! out the next action and takes back what came of it.
//!
//! - `manager`: log in, supervise a session, start over.
//! - `login`: one attempt to log in.
//! - `session`: one session, on both sides of the fork.
//! - `displayservers`: the display server's two phases, and the X server.
//! - `askpass`, `config`, `dbus`, `text`: what is read and written on the way.

pub mod askpass;
pub mod config;
pub mod dbus;
pub mod displayservers;
pub mod error;
pub mod login;
pub mod manager;
pub mod session;
pub mod text;
