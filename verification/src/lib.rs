//! The decision core of a validator key management server.
//!
//! The server signs for a set of chains. Its chains, validators and signing
//! providers are listed in one configuration file, and an HTTP endpoint adds a
//! chain while the server runs. This crate decides what such a request does: what
//! is refused, which file operations are performed and in which order, what the
//! file holds afterwards, and what the client is answered. It also decides how the
//! server starts and how it shuts down. Reading files, threads, sockets and the
//! asynchronous runtime belong to the program around it, which performs the
//! actions that this crate asks for and reports back what came of them.
pub mod application;
pub mod commands;
pub mod config;
pub mod error;
pub mod http_server;
pub mod paths;
