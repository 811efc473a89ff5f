//! Discovery, description and installation planning for dotfile bundles.
//!
//! A bundle is a directory that holds a descriptor (`dotwell.toml` or
//! `dotwell.json`). This crate holds the rules: how a descriptor is read,
//! which directories a scan visits and in what order, which command installs a
//! bundle, and how a browsing session moves between its views. Everything that
//! touches the file system, a child process or the terminal is left to the
//! caller, which answers the requests these types hand out.

pub mod app;
pub mod config;
pub mod document;
pub mod installer;
pub mod listing;
pub mod paths;
pub mod scanner;
pub mod text;
pub mod tree;
