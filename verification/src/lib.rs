//! A personal SSH connection manager: a catalogue of server profiles, the
//! choice of an authentication strategy for each, and the command lines that
//! open a session or move a file.

pub mod auth;
pub mod cli;
pub mod command;
pub mod config;
pub mod error;
pub mod history;
pub mod provision;
pub mod ssh_util;
pub mod text;
