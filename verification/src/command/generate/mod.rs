//! The command that generates what is missing on the server.

pub mod items;
