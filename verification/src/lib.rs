//! Verified core of a peer-to-peer terminal chat: the length-prefixed message
//! frame codec, the Slash Command parser, Peer ID hex handling, prompt and
//! output rendering, and the decisions of the REPL event loop.

pub mod cli;
pub mod command;
pub mod frame;
pub mod repl;
pub mod store;
pub mod text;
pub mod ui;
