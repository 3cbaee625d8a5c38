//! Site migration: detection of the hosted application, extraction of its
//! database credentials, the shell commands that capture and replay its data,
//! and the sequence of stages that moves a site to a new server.

pub mod error;
pub mod credentials;
pub mod site_type;
pub mod paths;
pub mod commands;
pub mod config;
pub mod password;
pub mod forge;
pub mod pipeline;
