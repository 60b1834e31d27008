//! Verified core of a WeChat Official Account book-note publisher: it checks structured book
//! notes, escapes their text, renders them into article HTML with fixed templates, and makes
//! the decisions of the API client and the MCP tools (write gating, confirmations, limits,
//! the access-token cache, cover-image checks).
pub mod client;
pub mod engine;
pub mod escape;
pub mod json;
pub mod media;
pub mod server;
pub mod template;
pub mod templates;
pub mod text;
pub mod tools;
