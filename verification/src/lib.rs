//! The decisions of an SSH terminal that keeps a remote tmux session alive.
//!
//! The library performs no input or output. It reads the command line
//! ([`cli`]), says which request follows which to open a session ([`session`],
//! [`hostkey`]), what the session manager does with each thing that happens
//! ([`manager`]), and what passes between a channel and its user ([`stdio`]).
#![allow(unused_imports)]

pub mod cli;
pub mod config;
pub mod host;
pub mod hostkey;
pub mod manager;
pub mod manager_laws;
pub mod manager_steps;
pub mod path_laws;
pub mod payload;
pub mod session;
pub mod shell;
pub mod stdio;
pub mod text;
pub mod view_laws;
