//! Keeps a monitoring server in step with a list of discovered web
//! endpoints: for every host and URL pair it makes sure that a polling item,
//! a web scenario and a trigger exist, creating only what is missing.

pub mod cli;
pub mod command;
pub mod config;
pub mod errors;
pub mod http;
pub mod logging;
pub mod reconcile;
pub mod source;
pub mod string_map;
pub mod template;
pub mod text;
pub mod types;
pub mod zabbix;
