//! The Model Context Protocol side of Smelt: JSON-RPC messages, the session
//! state of the server, and what each tool decides and reports.

pub mod protocol;
pub mod server;
pub mod tools;
pub mod intents;
pub mod commit;
pub mod status;
pub mod validate;
pub mod memory;

