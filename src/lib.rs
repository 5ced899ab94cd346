//! Resumable, retrying acquisition of large remote files.
//!
//! The library holds the decisions of the transfer engine: the backoff
//! schedule, the interpretation of what a remote source reports, the state
//! machine that drives one logical transfer across attempts, and the one that
//! assembles a multi-part transfer. Whoever runs it performs the network and
//! disk work that each action names and feeds back what happened.

pub mod retry;
pub mod text;
pub mod source;
pub mod acquire;
pub mod writer;
pub mod multipart;
pub mod paths;
pub mod config;
pub mod archive;
pub mod runner;
pub mod toml_modifier;
