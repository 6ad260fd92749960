//! An interactive session that collects workshop items, application by
//! application, and hands them to a downloader as one script.
//!
//! - [`cli`] splits a line of input into command word, arguments and options.
//! - [`manager`] holds the state of a session: the alias table, which binds
//!   names to application ids, and the workshop collection.
//! - [`workshop`] is the workshop collection and its export script.
//! - [`commands`] are the commands `alias`, `help`, `search` and `convert`.
//! - [`catalog`] reads a catalog page.
//! - [`session`] is the dispatcher: it takes events and answers with the lines
//!   to print and the next thing to do.
//! - [`text`], [`keyed`], [`unicode`], [`random`] and [`utils`] are what the
//!   others are built on.
//!
//! The library decides and computes. It never prints, reads a file, reaches
//! the network or starts a process: whoever drives a session does.
pub mod catalog;
pub mod cli;
pub mod commands;
pub mod keyed;
pub mod manager;
pub mod random;
pub mod session;
pub mod text;
pub mod unicode;
pub mod utils;
pub mod workshop;
