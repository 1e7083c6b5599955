//! A broadcast-addressed agent: the grammar of its text commands, the state
//! machine that dispatches them, and the replies it builds.

pub mod addressing;
pub mod agent;
pub mod command;
pub mod config;
pub mod conversation;
pub mod datagram;
pub mod envelope;
pub mod identity;
pub mod interfaces;
pub mod shell;
pub mod text;
