//! The decision core of an engine that installs and updates games through
//! the vendor's command-line launcher, SteamCMD.
//!
//! The crate decides and the caller acts. Nothing here touches a file, a
//! process or the network: the caller reports what it found and what the
//! launcher printed, and is told what to do next. Every function is verified
//! against a mathematical description of its result.
//!
//! - [`platform`]: the launcher artifact of each host platform.
//! - [`installer`]: the installation of the launcher, step by step.
//! - [`driver`]: the launcher's commands, for its command line and for its
//!   standard input.
//! - [`classify`]: what a line of launcher output means.
//! - [`events`]: what is published to the user interface.
//! - [`update`]: the anonymous update, read off one batch run.
//! - [`session`]: the authenticated update as a state machine.
//! - [`auth`]: signing in, in up to two batch runs.
//! - [`controller`]: the rule that one session is live at a time.
//! - [`credentials`]: credentials and the logical credential store.
//! - [`error`]: the errors of all commands.
//! - [`text`]: substring search, decimal numerals and lines.

pub mod auth;
pub mod classify;
pub mod controller;
pub mod credentials;
pub mod driver;
pub mod error;
pub mod events;
pub mod installer;
pub mod platform;
pub mod session;
pub mod text;
pub mod update;
