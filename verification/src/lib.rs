//! The decisions of a code-graph agent: what is sent to the language model, how its replies are
//! read back as tool calls, and with which limits the agent runs.

pub mod adapter;
pub mod agent;
pub mod chat;
pub mod json;
pub mod limits;
pub mod provider;
pub mod reply;
pub mod response;
pub mod text;
