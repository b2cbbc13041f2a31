//! The decision core of an OpenAI-compatible reverse proxy whose answers come
//! from an MCP-connected agent.
pub mod json;
pub mod message;
pub mod openai;
pub mod mcp;
pub mod state;
pub mod laws;
pub mod behaviour;
