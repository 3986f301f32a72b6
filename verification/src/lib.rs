//! Running coding agents: their profiles, their sessions over the Agent Client
//! Protocol, and the conversations that come of them.

pub mod acp;
pub mod agents;
pub mod approvals;
pub mod collections;
pub mod command;
pub mod config;
pub mod json;
pub mod logs;
pub mod path;
pub mod process;
pub mod profile;
pub mod text;
pub mod text_laws;
