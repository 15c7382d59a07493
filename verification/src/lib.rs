//! The verified core of a small command-line task tracker.
//!
//! Tasks live in a single SQLite table. This crate holds the rules of the
//! tracker: where its files are kept, which statement each command sends to
//! the store, how stored rows become tasks, and what the user is told.
//! Reading the environment, the terminal and the file system is left to the
//! program around it, which hands over what it observed as plain values.

pub mod args;
pub mod config;
pub mod database;
pub mod error;
pub mod io_utils;
pub mod models;
pub mod startup;
pub mod store;
pub mod text;
pub mod timestamp;
