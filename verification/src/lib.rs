//! A bounded pool of browser tabs for rendering remote pages, kept as a set of
//! verified state machines: the decisions of the pool, of one scrape and of one
//! request are functions from a state and an event to the next state and the
//! action to perform. Whoever drives them owns the browser, the clock and the
//! network; nothing in this crate waits or performs I/O.

pub mod address;
pub mod browser;
pub mod config;
pub mod cors;
pub mod error;
pub mod gate;
pub mod handlers;
pub mod idle;
pub mod ids;
pub mod json;
pub mod llm;
pub mod markdown;
pub mod models;
pub mod scrape;
pub mod target;
pub mod text;
