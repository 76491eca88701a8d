//! Verified core of the grokrs CLI agent: the policy engine, session state
//! machine, configuration rules and the text formatting of the commands.

pub mod text;
pub mod policy;
pub mod executor;
pub mod config;
pub mod layers;
pub mod session;
pub mod repl;
pub mod chat_backend;
pub mod agent;
pub mod search;
pub mod json;
pub mod calendar;
pub mod sessions;
pub mod preflight;
pub mod mcp;
pub mod chat;
pub mod voice;
pub mod generate;
pub mod models;
pub mod doctor;
pub mod store;
pub mod commands;
