//! Core engine for a line-oriented SMS command protocol: a parser that turns
//! free-form text into typed commands, a chain registry, a deterministic
//! multi-chain balance aggregator, and a stateless per-message command
//! executor expressed as a state machine over collaborator calls.

pub mod balance;
pub mod chain;
pub mod command;
pub mod config;
pub mod crypto;
pub mod executor;
pub mod parser;
pub mod text;
pub mod webhook;
