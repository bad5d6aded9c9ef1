//! Display facts for a dashboard that watches several game accounts at once.
//!
//! Workers log accounts in, fight and crawl servers; the dashboard only looks
//! at what they publish. This crate turns one look at that shared state into
//! plain values a renderer can draw without knowing anything about workers:
//! a status label, a countdown to the next free fight and an auto-battle
//! marker per account, a progress label per server, and the order in which
//! servers and accounts are listed.
//!
//! Every function carries a contract that Verus proves of its body. The two
//! exceptions are the functions that call into `chrono` for the time and
//! into `titlecase` for the spelling of names: their contracts are taken on
//! trust and say so.

pub mod account;
pub mod crawl;
pub mod decimal;
pub mod instant;
pub mod lexical;
pub mod names;
pub mod order;
pub mod summary;
