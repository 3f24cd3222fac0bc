//! Canteen menus on the command line and in chat.
//!
//! The library resolves a user-supplied date token and canteen selection
//! (by id, by free-text location, or from a configured default list) to a
//! set of menu entries, shapes the entries into presentation rows shared by
//! both front ends, and decides every reply text. Network transport, the
//! chat framework and the table printer are collaborators outside the
//! library: callers perform the fetches and hand the results back as plain
//! values.

pub mod apis;
pub mod args;
pub mod bot;
pub mod config;
pub mod date;
pub mod dispatch;
pub mod errors;
pub mod fetcher;
pub mod mensa_api;
pub mod models;
pub mod resolver;
pub mod text;
