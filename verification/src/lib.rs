//! crowley: the logic of an MCP server that fetches web content through the
//! `crwl` CLI. Configuration layering (defaults, TOML file, command line),
//! the `crwl crawl` argument vector, failure messages, and the rendering and
//! truncation of tool results, each with its contract.

pub mod config;
pub mod crwl;
pub mod server;
pub mod text;
