//! Protocol core of a marketplace client: token lifecycle, listing
//! publication and catalog price search, written without any I/O of its own.
//! A driver performs the requests and pauses that the workflows ask for and
//! feeds the outcomes back in.
//!
//! - [`flow`] holds the control skeleton of the workflows as one transition
//!   function, and [`laws`] what is proved of it.
//! - [`workflow`] runs a workflow step by step on a session of [`client`],
//!   which also builds the requests.
//! - [`transport`] holds the request and error types, the header set and the
//!   decompression of replies; [`pacing`] draws the pauses.
//! - [`search`] reduces a catalog reply to a quote and sums up a batch;
//!   [`codes`] holds the attribute tables.
//! - [`account`] reads credentials and screenshot addresses out of account
//!   files; [`config`] validates settings; [`text`] holds what they share.

pub mod account;
pub mod client;
pub mod codes;
pub mod config;
pub mod flow;
pub mod laws;
pub mod pacing;
pub mod search;
pub mod text;
pub mod transport;
pub mod workflow;
