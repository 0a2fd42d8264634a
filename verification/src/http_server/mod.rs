//! The HTTP server that adds chains while the program runs.
pub mod atomicity;
pub mod config;
pub mod config_update;
pub mod handlers;
pub mod models;
pub mod routes;
pub mod serving;
