//! Argument building, input validation and output handling for an MCP server
//! that drives the `agent-browser` command-line tool.

pub mod text;
pub mod validate;
pub mod protocol;
pub mod args;
pub mod params;
pub mod tools;
pub mod output;
pub mod laws;
