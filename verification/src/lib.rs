//! Verified core of a lifecycle manager for a locally installed
//! application: it installs, starts, stops, restarts and removes one
//! instance of the application together with its private runtime, keeps a
//! small record of the installation, and registers itself for autostart.
//!
//! The library decides and never acts. An operation is a [`session::Session`]
//! that is advanced step by step: [`ops::advance`] takes the outcome of the
//! last action and hands out the next [`action::Action`] with the notes to
//! show. The caller performs the action (files, processes, the network) and
//! comes back with what happened.
//!
//! - [`record`]: the persisted record and what loading makes of it.
//! - [`session`]: the state of an operation and the survey it starts with.
//! - [`ops`]: the operations, each a function from state and outcome to
//!   state and action; [`installer`] holds the phases of an install.
//! - [`channel`]: addresses and bodies of the liveness and control requests.
//! - [`autostart`]: how the manager is registered with the login session.
//! - [`artifacts`]: what an install fetches and which commands build it.
//! - [`laws`]: what holds of the operations on every machine.
//! - [`paths`], [`json`], [`token`], [`text`], [`console`], [`notice`],
//!   [`fault`], [`platform`], [`args`], [`action`]: the values all of this
//!   speaks in.

pub mod action;
pub mod args;
pub mod artifacts;
pub mod autostart;
pub mod channel;
pub mod console;
pub mod fault;
pub mod installer;
pub mod json;
pub mod laws;
pub mod notice;
pub mod ops;
pub mod paths;
pub mod platform;
pub mod record;
pub mod session;
pub mod text;
pub mod token;
