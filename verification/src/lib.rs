//! Decision logic of a chat bot that registers one `echo` command in a single
//! guild and answers each invocation privately with the text it was given.
//!
//! The library decides and never performs: it is handed plain values and
//! gives plain values back. [`config`] reads the two settings, [`handler`]
//! says what to register and what to answer, [`fatal`] says which outcomes
//! end the process. The gateway connection and the HTTP calls belong to the
//! program around it.

pub mod command;
pub mod config;
pub mod decimal;
pub mod fatal;
pub mod handler;
pub mod interaction;
pub mod response;
