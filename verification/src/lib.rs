//! Control-plane core for short-lived sandboxed compute units ("droplets").
//!
//! The crate holds the decisions of the droplet lifecycle, each with a
//! contract that Verus proves:
//!
//! - [`quantity`] parses resource quantities such as `128Mi` into exact
//!   numbers of bytes, and [`ordering`] orders them;
//! - [`limits`] is the limiter attached to each run, which answers requests
//!   to grow a memory or a table;
//! - [`config`] is the data model of a droplet definition;
//! - [`droplet`] makes a runnable handle from a definition, by way of the
//!   artifact cache or the compiler;
//! - [`invocation`] runs a handle once and gives back what the code wrote;
//! - [`registry`] keeps the live handles by name and creates droplets;
//! - [`storage`] lays out the directories of the control plane;
//! - [`error`] names the failures;
//! - [`laws`] states what creating, overwriting and restarting come to in an
//!   environment that does what it is asked;
//! - [`foreign`] holds what is taken on trust from other crates.
//!
//! The library never touches a file, a socket or a clock. Where a decision
//! depends on the world, it says which action it waits for and is told the
//! outcome as an event.

pub mod config;
pub mod droplet;
pub mod error;
pub mod foreign;
pub mod invocation;
pub mod laws;
pub mod limits;
pub mod ordering;
pub mod quantity;
pub mod registry;
pub mod storage;
